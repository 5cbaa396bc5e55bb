use vstd::prelude::*;
use crate::ids::ObjectId;

verus! {

/// An identity with a timestamp, as recorded in a commit.
pub struct Person {
    pub name: String,
    pub email: String,
    /// Seconds since the Unix epoch.
    pub seconds: i64,
    /// Offset of the recorded time zone from UTC, in minutes.
    pub offset_minutes: i32,
}

/// What a commit says besides its tree and parents.
pub struct CommitMeta {
    pub author: Person,
    pub committer: Person,
    /// The message; none where the store holds no readable message.
    pub message: Option<String>,
}

/// A commit to be written: metadata taken over from a source commit, with a
/// new tree and new parents.
pub struct CommitRequest {
    pub author: Person,
    pub committer: Person,
    pub message: String,
    pub parents: Vec<ObjectId>,
    pub tree: ObjectId,
    /// Commit to detach the working position to before writing.
    pub anchor: Option<ObjectId>,
}

/// The message used where the source commit has none.
pub open spec fn default_message() -> Seq<char> {
    seq!['n', 'o', ' ', 'm', 'e', 's', 's', 'a', 'g', 'e']
}

/// The message a rewritten commit carries.
pub open spec fn message_of(m: Option<String>) -> Seq<char> {
    match m {
        Some(s) => s@,
        None => default_message(),
    }
}

impl Person {
    /// Copy of the identity.
    pub fn copy(&self) -> (r: Person)
        ensures
            r == *self,
    {
        Person {
            name: self.name.clone(),
            email: self.email.clone(),
            seconds: self.seconds,
            offset_minutes: self.offset_minutes,
        }
    }
}

/// Reconstructs `base` onto `tree` and `parents`: author, committer and
/// message are those of `base`; the working position is anchored at the first
/// parent, if any.
pub fn rewrite(base: &CommitMeta, parents: Vec<ObjectId>, tree: ObjectId) -> (r: CommitRequest)
    ensures
        r.author == base.author,
        r.committer == base.committer,
        r.message@ == message_of(base.message),
        r.parents == parents,
        r.tree == tree,
        r.anchor == (if parents@.len() > 0 {
            Some(parents@[0])
        } else {
            None::<ObjectId>
        }),
{
    let message = match &base.message {
        Some(m) => m.clone(),
        None => {
            proof {
                reveal_strlit("no message");
            }
            let d = String::from_str("no message");
            assert(d@ =~= default_message());
            d
        },
    };
    let anchor = if parents.len() > 0 {
        Some(parents[0])
    } else {
        None
    };
    CommitRequest {
        author: base.author.copy(),
        committer: base.committer.copy(),
        message,
        parents,
        tree,
        anchor,
    }
}

} // verus!
