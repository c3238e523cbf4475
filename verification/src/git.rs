use vstd::prelude::*;

use crate::data::Config;
use crate::error::AppError;

verus! {

/// What reading one branch's name gave.
pub enum BranchName {
    /// The name could not be read.
    Unreadable,
    /// The branch has no name.
    Unnamed,
    /// The branch's name.
    Named(String),
}

/// One entry of the repository's branch listing, as far as the walk could
/// read it.
pub enum BranchEntry {
    /// The listing itself yielded an unreadable entry.
    Unreadable,
    Branch { is_head: bool, name: BranchName },
}

/// The branch name that a left fold over the listing settles on: a readable,
/// named head branch sets it, an unreadable entry resets it, and everything
/// else keeps what came before. `None` stands for the not-found error.
pub open spec fn current_branch_view(entries: Seq<BranchEntry>) -> Option<Seq<char>>
    decreases entries.len(),
{
    if entries.len() == 0 {
        None
    } else {
        let prev = current_branch_view(entries.drop_last());
        match entries.last() {
            BranchEntry::Unreadable => None,
            BranchEntry::Branch { is_head, name } => {
                if is_head {
                    match name {
                        BranchName::Unreadable => None,
                        BranchName::Unnamed => prev,
                        BranchName::Named(n) => Some(n@),
                    }
                } else {
                    prev
                }
            },
        }
    }
}

/// Picks the current branch out of the listing, exactly as the fold in the
/// view says; when nothing settles it, the git error reports that no current
/// branch was found.
#[verifier::loop_isolation(false)]
pub fn current_branch_from_entries(entries: Vec<BranchEntry>) -> (r: Result<String, AppError>)
    ensures
        r matches Ok(n) ==> current_branch_view(entries@) == Some(n@),
        r is Err ==> current_branch_view(entries@) is None,
        r matches Err(e) ==> (e matches AppError::Git(m) && m@ == "current branch not found"@),
{
    let ghost all = entries@;
    let mut remaining = entries;
    let count = remaining.len();
    proof {
        assert(all.len() == count as nat);
    }
    let mut acc: Result<String, AppError> = Err(
        AppError::Git("current branch not found".to_owned()),
    );
    let mut k: usize = 0;
    while remaining.len() > 0
        invariant
            all.len() == count as nat,
            all.len() == k + remaining@.len(),
            remaining@ == all.subrange(k as int, all.len() as int),
            acc matches Ok(n) ==> current_branch_view(all.subrange(0, k as int)) == Some(n@),
            acc is Err ==> current_branch_view(all.subrange(0, k as int)) is None,
            acc matches Err(e) ==> (e matches AppError::Git(m) && m@
                == "current branch not found"@),
        decreases remaining@.len(),
    {
        let e = remaining.remove(0);
        proof {
            assert(e == all[k as int]);
            assert(remaining@ =~= all.subrange(k + 1, all.len() as int));
            assert(all.subrange(0, k + 1).drop_last() =~= all.subrange(0, k as int));
            assert(all.subrange(0, k + 1).last() == all[k as int]);
        }
        match e {
            BranchEntry::Unreadable => {
                acc = Err(AppError::Git("current branch not found".to_owned()));
            },
            BranchEntry::Branch { is_head, name } => {
                if is_head {
                    match name {
                        BranchName::Unreadable => {
                            acc = Err(AppError::Git("current branch not found".to_owned()));
                        },
                        BranchName::Unnamed => {},
                        BranchName::Named(n) => {
                            acc = Ok(n);
                        },
                    }
                }
            },
        }
        k = k + 1;
    }
    proof {
        assert(all.subrange(0, all.len() as int) =~= all);
    }
    acc
}

/// The push authenticates over SSH key material exactly when no password is
/// configured; otherwise it uses the configured username and password.
pub fn use_ssh_credentials(config: &Config) -> (r: bool)
    ensures
        r == (config.password is None),
{
    config.password.is_none()
}

} // verus!
