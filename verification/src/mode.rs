//! Which of the daemon's two listings an invocation asks for.
use vstd::prelude::*;

verus! {

/// The listing to fetch, and so the shape of the records that come back.
#[derive(Clone, Copy, Debug, PartialEq, Eq, Structural)]
pub enum Mode {
    Containers,
    Images,
}

/// The mode that a discriminator string names: `"images"` or `"containers"`, exactly.
pub open spec fn mode_named(text: Seq<char>) -> Option<Mode> {
    if text == "images"@ {
        Some(Mode::Images)
    } else if text == "containers"@ {
        Some(Mode::Containers)
    } else {
        None
    }
}

impl Mode {
    /// Reads a discriminator string. Any string but the two names gives `None`.
    pub fn parse(text: &str) -> (mode: Option<Mode>)
        ensures
            mode == mode_named(text@),
    {
        let given = text.to_owned();
        if given == "images".to_owned() {
            Some(Mode::Images)
        } else if given == "containers".to_owned() {
            Some(Mode::Containers)
        } else {
            None
        }
    }
}

} // verus!
