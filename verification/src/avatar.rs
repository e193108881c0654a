use vstd::prelude::*;
use crate::text::views;

verus! {

/// How a player looks in a room: a name, at most one costume, and cosmetics.
#[derive(Debug, Clone)]
pub struct AvatarProfile {
    pub name: String,
    pub costume: Option<String>,
    pub cosmetics: Vec<String>,
}

/// The mathematical content of an avatar profile.
pub struct AvatarView {
    pub name: Seq<char>,
    pub costume: Option<Seq<char>>,
    pub cosmetics: Seq<Seq<char>>,
}

impl View for AvatarProfile {
    type V = AvatarView;

    open spec fn view(&self) -> AvatarView {
        AvatarView {
            name: self.name@,
            costume: match self.costume {
                Some(c) => Some(c@),
                None => None,
            },
            cosmetics: views(self.cosmetics@),
        }
    }
}

/// The plain avatar of a player called `name`: no costume, no cosmetics.
pub open spec fn base_avatar(name: Seq<char>) -> AvatarView {
    AvatarView { name, costume: None, cosmetics: seq![] }
}

impl AvatarProfile {
    /// The plain avatar of a player called `name`.
    pub fn base(name: String) -> (p: AvatarProfile)
        ensures
            p@ == base_avatar(name@),
    {
        let p = AvatarProfile { name, costume: None, cosmetics: Vec::new() };
        assert(p@.cosmetics =~= Seq::<Seq<char>>::empty());
        p
    }
}

} // verus!
