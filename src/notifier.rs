//! What a notification of an outcome says, apart from how the platform
//! shows it.
use crate::outcome::{icon_of, title_of, Outcome};
use vstd::prelude::*;

verus! {

/// The ways of showing an outcome that the library knows.
#[derive(Clone, Copy, Debug, PartialEq, Eq, Structural)]
pub enum Notifier {
    /// A freedesktop desktop notification, as `notify-send` shows it.
    NotifySend,
}

/// The content of one notification.
#[derive(Debug, PartialEq, Eq)]
pub struct Notice {
    pub title: String,
    pub icon: String,
    pub body: String,
}

/// The notifier that reports outcomes.
pub fn obtain_notifier() -> (r: Notifier)
    ensures
        r == Notifier::NotifySend,
{
    Notifier::NotifySend
}

impl Notifier {
    /// The notification for `outcome`: its title and icon follow its kind,
    /// its body is the recognised line of output.
    pub fn notice(&self, outcome: &Outcome) -> (r: Notice)
        ensures
            r.title@ == title_of(outcome.spec_kind()),
            r.icon@ == icon_of(outcome.spec_kind()),
            r.body@ == outcome.spec_detail(),
    {
        match self {
            Notifier::NotifySend => Notice {
                title: outcome.title().to_owned(),
                icon: outcome.icon().to_owned(),
                body: outcome.detail().to_owned(),
            },
        }
    }
}

} // verus!
