//! The parsed push payload, and the split of a repository's full name into
//! owner and repository.

use vstd::prelude::*;

verus! {

/// The author of one commit.
#[derive(Debug)]
pub struct Author {
    pub name: String,
    pub email: String,
}

/// One commit of the push; processed independently of its siblings.
#[derive(Debug)]
pub struct Commit {
    /// The head SHA the check run is attached to.
    pub id: String,
    pub message: String,
    pub author: Author,
}

/// The repository the push went to; `full_name` is canonically
/// `<owner>/<repo>`.
#[derive(Debug)]
pub struct Repository {
    pub name: String,
    pub full_name: String,
}

/// One inbound push notification, immutable after parse.
#[derive(Debug)]
pub struct GitHubWebhookPayload {
    pub git_ref: Option<String>,
    pub commits: Option<Vec<Commit>>,
    pub repository: Repository,
}

/// The body of the fixed success response.
pub struct WebhookResponse {
    pub message: String,
}

/// Position `i` is the one slash of `s`.
pub open spec fn is_only_slash(s: Seq<char>, i: int) -> bool {
    &&& 0 <= i < s.len()
    &&& s[i] == '/'
    &&& forall|j: int| 0 <= j < s.len() && j != i ==> s[j] != '/'
}

/// A full name splits into owner and repository: exactly one slash, and a
/// non-empty part on each side of it.
pub open spec fn valid_full_name(s: Seq<char>) -> bool {
    exists|i: int| is_only_slash(s, i) && 0 < i && i + 1 < s.len()
}

/// The position of the one slash of a valid full name.
pub open spec fn slash_index(s: Seq<char>) -> int {
    choose|i: int| is_only_slash(s, i)
}

/// The part before the slash.
pub open spec fn owner_of(s: Seq<char>) -> Seq<char> {
    s.subrange(0, slash_index(s))
}

/// The part after the slash.
pub open spec fn repo_of(s: Seq<char>) -> Seq<char> {
    s.subrange(slash_index(s) + 1, s.len() as int)
}

/// A string has at most one only-slash position.
proof fn lemma_only_slash_unique(s: Seq<char>, i: int, j: int)
    requires
        is_only_slash(s, i),
        is_only_slash(s, j),
    ensures
        i == j,
{
}

/// Of a valid full name, the slash index is the witness position, strictly
/// inside the string.
pub proof fn lemma_slash_index_bounds(s: Seq<char>)
    requires
        valid_full_name(s),
    ensures
        is_only_slash(s, slash_index(s)),
        0 < slash_index(s),
        slash_index(s) + 1 < s.len(),
{
    let w = choose|i: int| is_only_slash(s, i) && 0 < i && i + 1 < s.len();
    assert(is_only_slash(s, w));
    lemma_only_slash_unique(s, w, slash_index(s));
}

/// Split a full name into owner and repository on its one slash; `None` when
/// the name is not of the form `<owner>/<repo>` with both parts non-empty.
pub fn split_full_name(full_name: &String) -> (r: Option<(String, String)>)
    ensures
        r is Some <==> valid_full_name(full_name@),
        r matches Some((owner, repo)) ==> owner@ == owner_of(full_name@) && repo@ == repo_of(
            full_name@,
        ),
{
    let st: &str = full_name.as_str();
    let n = st.unicode_len();
    let mut found: Option<usize> = None;
    let mut i: usize = 0;
    while i < n
        invariant
            i <= n,
            n == st@.len(),
            st@ == full_name@,
            found matches Some(p) ==> 0 <= p < i && st@[p as int] == '/' && (forall|j: int|
                0 <= j < i && j != p ==> st@[j] != '/'),
            found is None ==> forall|j: int| 0 <= j < i ==> st@[j] != '/',
        decreases n - i,
    {
        let c = st.get_char(i);
        if c == '/' {
            match found {
                None => {
                    found = Some(i);
                },
                Some(p) => {
                    // A second slash: no position can be the only slash.
                    proof {
                        assert forall|k: int| !is_only_slash(st@, k) by {
                            if k != p {
                                assert(st@[p as int] == '/');
                            } else {
                                assert(st@[i as int] == '/');
                            }
                        }
                    }
                    return None;
                },
            }
        }
        i = i + 1;
    }
    match found {
        None => {
            proof {
                assert forall|k: int| !is_only_slash(st@, k) by {}
            }
            None
        },
        Some(p) => {
            if p == 0 || p + 1 == n {
                // An empty owner or repository part.
                proof {
                    assert forall|k: int| is_only_slash(st@, k) implies k == p by {
                        assert(st@[p as int] == '/');
                    }
                }
                None
            } else {
                proof {
                    assert(is_only_slash(st@, p as int));
                    lemma_slash_index_bounds(st@);
                    lemma_only_slash_unique(st@, p as int, slash_index(st@));
                }
                let owner_part = st.substring_char(0, p);
                let repo_part = st.substring_char(p + 1, n);
                let owner = String::from_str(owner_part);
                let repo = String::from_str(repo_part);
                Some((owner, repo))
            }
        },
    }
}

} // verus!
