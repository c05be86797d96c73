//! Where the Bevy scene finds its assets: the `assets` directory three levels
//! above the executable (the project root when run from `target/release`).
use vstd::prelude::*;

verus! {

/// Name of the asset directory, and the directory used when no better one is known.
pub const ASSETS_DIR: &'static str = "assets";

/// How many levels above the executable the project root lies.
pub const ROOT_LEVELS: usize = 3;

/// The text of an optional path.
pub open spec fn path_text(path: Option<String>) -> Option<Seq<char>> {
    match path {
        Some(p) => Some(p@),
        None => None,
    }
}

/// `prefix` is a strictly shorter beginning of `path`.
pub open spec fn is_strict_prefix(prefix: Seq<char>, path: Seq<char>) -> bool {
    prefix.len() < path.len() && prefix == path.take(prefix.len() as int)
}

/// `path` begins with the Windows verbatim prefix `\\?\`.
pub open spec fn starts_verbatim(path: Seq<char>) -> bool {
    path.len() >= 4 && path[0] == '\\' && path[1] == '\\' && path[2] == '?' && path[3] == '\\'
}

/// `name` is a single plain file name: one or more lower-case ASCII letters,
/// so that it is a relative path without separators on every platform.
pub open spec fn is_plain_name(name: Seq<char>) -> bool {
    name.len() > 0 && forall|i: int| 0 <= i < name.len() ==> 'a' <= #[trigger] name[i] && name[i] <= 'z'
}

/// What `std::path::Path::parent` gives for `path`, as text. It depends on the
/// path alone; how components are found is fixed by the platform the crate is
/// built for.
pub uninterp spec fn path_parent_of(path: Seq<char>) -> Option<Seq<char>>;

/// What `std::path::Path::join` gives for `base` and `name`, as text. It depends
/// on the two paths alone; the separator is the one of the platform the crate
/// is built for.
pub uninterp spec fn path_joined(base: Seq<char>, name: Seq<char>) -> Seq<char>;

/// Calls `std::path::Path::parent` on `path`. The result is named `path_parent_of`.
/// Its documentation says it gives the path without its final component, so a
/// result is a strictly shorter beginning of the path, and that the empty path
/// has none; both are stated. When a non-empty path has a parent is left to the
/// name: it turns on the platform's roots and prefixes.
#[verifier::external_body]
fn path_parent(path: &str) -> (parent: Option<String>)
    ensures
        path_text(parent) == path_parent_of(path@),
        path@.len() == 0 ==> parent is None,
        parent matches Some(p) ==> is_strict_prefix(p@, path@),
{
    match std::path::Path::new(path).parent() {
        Some(p) => Some(p.to_string_lossy().into_owned()),
        None => None,
    }
}

/// Calls `std::path::Path::join`. The result is named `path_joined`. Its
/// documentation says that a relative path is appended to `base`, with a
/// separator where one is needed. For a plain file name this is stated: the
/// result ends with `name` and is at most one character longer than `base` and
/// `name` together; and unless `base` has a Windows verbatim prefix (`\\?\`),
/// whose components are normalized when a path is pushed, the result is `base`,
/// then nothing, `/` or `\`, then `name`. Which separator the platform uses,
/// and what a verbatim base becomes, are left to the name.
#[verifier::external_body]
fn path_join(base: &str, name: &str) -> (joined: String)
    ensures
        joined@ == path_joined(base@, name@),
        is_plain_name(name@) ==> {
            &&& joined@.len() >= name@.len()
            &&& joined@.skip(joined@.len() - name@.len()) == name@
            &&& joined@.len() <= base@.len() + name@.len() + 1
        },
        is_plain_name(name@) && !starts_verbatim(base@) ==> {
            ||| joined@ == base@ + name@
            ||| joined@ == base@ + seq!['/'] + name@
            ||| joined@ == base@ + seq!['\\'] + name@
        },
{
    std::path::Path::new(base).join(name).to_string_lossy().into_owned()
}

/// The directory `levels` levels above `path`: the parent taken `levels` times,
/// or none once a parent is missing.
pub open spec fn spec_ancestor(path: Seq<char>, levels: nat) -> Option<Seq<char>>
    decreases levels,
{
    if levels == 0 {
        Some(path)
    } else {
        match spec_ancestor(path, (levels - 1) as nat) {
            Some(dir) => path_parent_of(dir),
            None => None,
        }
    }
}

/// The parent of the parent of the parent of `path`, if each exists.
pub open spec fn three_levels_up(path: Seq<char>) -> Option<Seq<char>> {
    match path_parent_of(path) {
        Some(a) => match path_parent_of(a) {
            Some(b) => path_parent_of(b),
            None => None,
        },
        None => None,
    }
}

/// The asset directory for an executable at `exe`: `assets` under the directory
/// `ROOT_LEVELS` levels up, or plain `assets` when the path is unknown or has
/// fewer levels.
pub open spec fn spec_asset_dir(exe: Option<Seq<char>>) -> Seq<char> {
    match exe {
        Some(path) => match spec_ancestor(path, ROOT_LEVELS as nat) {
            Some(root) => path_joined(root, ASSETS_DIR@),
            None => ASSETS_DIR@,
        },
        None => ASSETS_DIR@,
    }
}

/// The asset directory is the executable's third parent joined with `assets`
/// when there is one, and plain `assets` when there is not or the executable's
/// path is unknown; the ancestor three levels up is that third parent.
pub proof fn lemma_asset_dir(exe: Option<Seq<char>>)
    ensures
        spec_ancestor_is_three_levels_up(exe),
        exe matches Some(e) ==> (three_levels_up(e) matches Some(root) ==> spec_asset_dir(exe)
            == path_joined(root, ASSETS_DIR@)),
        exe matches Some(e) && three_levels_up(e) is None ==> spec_asset_dir(exe) == ASSETS_DIR@,
        exe is None ==> spec_asset_dir(exe) == ASSETS_DIR@,
{
    if let Some(e) = exe {
        assert(spec_ancestor(e, 0) == Some(e));
        assert(spec_ancestor(e, 1) == path_parent_of(e));
        assert(spec_ancestor(e, 2) == match path_parent_of(e) {
            Some(a) => path_parent_of(a),
            None => None,
        });
        assert(spec_ancestor(e, 3) == three_levels_up(e));
    }
}

/// The ancestor `ROOT_LEVELS` levels up is the third parent.
pub open spec fn spec_ancestor_is_three_levels_up(exe: Option<Seq<char>>) -> bool {
    exe matches Some(e) ==> spec_ancestor(e, ROOT_LEVELS as nat) == three_levels_up(e)
}

/// The directory `levels` levels above `path`, if there is one.
pub fn ancestor(path: &str, levels: usize) -> (dir: Option<String>)
    ensures
        path_text(dir) == spec_ancestor(path@, levels as nat),
        levels > 0 && path@.len() == 0 ==> dir is None,
        dir matches Some(d) ==> d@.len() + levels <= path@.len() && d@ == path@.take(
            d@.len() as int,
        ),
{
    let mut current: Option<String> = Some(path.to_owned());
    let mut i: usize = 0;
    while i < levels
        invariant
            i <= levels,
            path_text(current) == spec_ancestor(path@, i as nat),
            current matches Some(d) ==> d@.len() + i <= path@.len() && d@ == path@.take(
                d@.len() as int,
            ),
        decreases levels - i,
    {
        let next = match &current {
            Some(dir) => path_parent(dir.as_str()),
            None => None,
        };
        proof {
            if next is Some && current is Some {
                let d = current->0@;
                let up = next->0@;
                assert(up =~= path@.take(up.len() as int));
            }
        }
        current = next;
        i = i + 1;
    }
    current
}

/// The asset directory for an executable at `exe`: `assets` joined to the
/// directory three levels up, or plain `assets` when the executable's path is
/// unknown or has fewer levels. Either way it ends with `assets`.
pub fn asset_dir_from_exe(exe: &Option<String>) -> (dir: String)
    ensures
        dir@ == spec_asset_dir(path_text(*exe)),
        exe matches Some(e) ==> (spec_ancestor(e@, ROOT_LEVELS as nat) matches Some(root) ==> dir@
            == path_joined(root, ASSETS_DIR@)),
        exe matches Some(e) ==> (three_levels_up(e@) matches Some(root) ==> dir@ == path_joined(
            root,
            ASSETS_DIR@,
        )),
        exe matches Some(e) && three_levels_up(e@) is None ==> dir@ == ASSETS_DIR@,
        dir@.len() >= ASSETS_DIR@.len(),
        dir@.skip(dir@.len() - ASSETS_DIR@.len()) == ASSETS_DIR@,
        exe matches Some(e) ==> match spec_ancestor(e@, ROOT_LEVELS as nat) {
            Some(root) => {
                &&& root.len() + ROOT_LEVELS <= e@.len()
                &&& root == e@.take(root.len() as int)
                &&& !starts_verbatim(e@) ==> dir@.take(root.len() as int) == root
            },
            None => dir@ == ASSETS_DIR@,
        },
{
    proof {
        reveal_strlit("assets");
        assert(is_plain_name(ASSETS_DIR@));
        lemma_asset_dir(path_text(*exe));
    }
    match exe {
        Some(path) => match ancestor(path.as_str(), ROOT_LEVELS) {
            Some(root) => {
                let dir = path_join(root.as_str(), ASSETS_DIR);
                proof {
                    if !starts_verbatim(path@) {
                        if starts_verbatim(root@) {
                            assert(path@[0] == root@[0] && path@[1] == root@[1]);
                            assert(path@[2] == root@[2] && path@[3] == root@[3]);
                        }
                        assert(dir@.take(root@.len() as int) =~= root@);
                    }
                }
                dir
            },
            None => {
                let dir = ASSETS_DIR.to_owned();
                assert(dir@.skip(0) =~= dir@);
                dir
            },
        },
        None => {
            let dir = ASSETS_DIR.to_owned();
            assert(dir@.skip(0) =~= dir@);
            dir
        },
    }
}

} // verus!
