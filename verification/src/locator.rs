use vstd::prelude::*;

verus! {

use vstd::string::StringExecFns;
use vstd::string::StrSliceExecFns;
use crate::error::TokenizerError;

/// A resolved model source: a concrete file path known to hold a complete
/// tokenizer definition.
#[derive(Debug)]
pub enum ModelPathKind {
    Json(String),
}

/// What the filesystem said of a user-supplied path at one instant.
pub struct PathStat {
    /// The path names an existing directory.
    pub is_dir: bool,
    /// The path names an existing regular file.
    pub is_file: bool,
    /// The directory holds a regular file named `tokenizer.json` directly
    /// inside it (meaningful only when `is_dir` holds).
    pub has_definition_inside: bool,
}

/// Index just after the last `/` of `p`; 0 when `p` holds no `/`.
/// The file name of a path is what follows this index.
pub open spec fn after_last_slash(p: Seq<char>) -> int
    decreases p.len(),
{
    if p.len() == 0 {
        0
    } else if p.last() == '/' {
        p.len() as int
    } else {
        after_last_slash(p.drop_last())
    }
}

/// Index of the last `.` of `p`, or -1 when `p` holds none.
pub open spec fn last_dot(p: Seq<char>) -> int
    decreases p.len(),
{
    if p.len() == 0 {
        -1
    } else if p.last() == '.' {
        p.len() - 1
    } else {
        last_dot(p.drop_last())
    }
}

/// The four characters of `json`, ASCII case-insensitively.
pub open spec fn is_json_seq(e: Seq<char>) -> bool {
    e.len() == 4
        && (e[0] == 'j' || e[0] == 'J')
        && (e[1] == 's' || e[1] == 'S')
        && (e[2] == 'o' || e[2] == 'O')
        && (e[3] == 'n' || e[3] == 'N')
}

/// Whether the file name of `p` carries an extension that equals `json`
/// ASCII case-insensitively: a `.` stands after the first character of the
/// file name, and what follows the last such `.` is `json`.
pub open spec fn has_json_extension(p: Seq<char>) -> bool {
    last_dot(p) > after_last_slash(p) && is_json_seq(
        p.subrange(last_dot(p) + 1, p.len() as int),
    )
}

/// The path of the definition file directly inside the directory `dir`.
pub open spec fn joined_definition_path(dir: Seq<char>) -> Seq<char> {
    if dir.len() > 0 && dir.last() == '/' {
        dir + "tokenizer.json"@
    } else {
        dir + "/"@ + "tokenizer.json"@
    }
}

proof fn lemma_last_dot_bounds(p: Seq<char>)
    ensures
        -1 <= last_dot(p) < p.len(),
    decreases p.len(),
{
    if p.len() > 0 && p.last() != '.' {
        lemma_last_dot_bounds(p.drop_last());
    }
}

/// Whether `p` names a file whose extension is case-insensitively `json`.
pub fn is_json_path(p: &str) -> (b: bool)
    ensures
        b == has_json_extension(p@),
{
    let n: usize = p.unicode_len();
    let mut j: usize = n;
    assert(p@.subrange(0, n as int) =~= p@);
    while j > 0 && p.get_char(j - 1) != '/'
        invariant
            j <= n,
            n == p@.len(),
            after_last_slash(p@) == after_last_slash(p@.subrange(0, j as int)),
        decreases j,
    {
        proof {
            assert(p@.subrange(0, j as int).drop_last() =~= p@.subrange(0, j - 1));
        }
        j -= 1;
    }
    proof {
        if j == 0 {
            assert(p@.subrange(0, 0) =~= Seq::<char>::empty());
        }
        assert(after_last_slash(p@) == j);
    }
    let mut k: usize = n;
    assert(p@.subrange(0, n as int) =~= p@);
    while k > j && p.get_char(k - 1) != '.'
        invariant
            j <= k <= n,
            n == p@.len(),
            last_dot(p@) == last_dot(p@.subrange(0, k as int)),
        decreases k,
    {
        proof {
            assert(p@.subrange(0, k as int).drop_last() =~= p@.subrange(0, k - 1));
        }
        k -= 1;
    }
    if k > j {
        // p[k - 1] is the last '.' of p
        proof {
            assert(last_dot(p@) == k - 1);
        }
        if k - 1 > j && n - k == 4 {
            let c0 = p.get_char(k);
            let c1 = p.get_char(k + 1);
            let c2 = p.get_char(k + 2);
            let c3 = p.get_char(k + 3);
            let b = (c0 == 'j' || c0 == 'J') && (c1 == 's' || c1 == 'S') && (c2 == 'o' || c2
                == 'O') && (c3 == 'n' || c3 == 'N');
            proof {
                let e = p@.subrange(k as int, n as int);
                assert(e.len() == 4);
                assert(e[0] == p@[k as int] && e[1] == p@[k + 1] && e[2] == p@[k + 2] && e[3]
                    == p@[k + 3]);
            }
            b
        } else {
            false
        }
    } else {
        proof {
            lemma_last_dot_bounds(p@.subrange(0, k as int));
        }
        false
    }
}

/// The path of the file named `tokenizer.json` directly inside `dir`.
pub fn join_definition_path(dir: &str) -> (r: String)
    ensures
        r@ == joined_definition_path(dir@),
{
    let n: usize = dir.unicode_len();
    let mut r = dir.to_owned();
    if n == 0 || dir.get_char(n - 1) != '/' {
        r.append("/");
    }
    r.append("tokenizer.json");
    r
}

/// What `resolve_with` decides for a path, given the filesystem facts:
/// a directory yields the definition file inside it, or `NotFound` with a
/// conversion hint; a file yields itself when its extension is `json`, or
/// `UnsupportedFormat`; anything else yields `NotFound`.
pub open spec fn resolve_decision(
    path: Seq<char>,
    stat: PathStat,
    r: Result<ModelPathKind, TokenizerError>,
) -> bool {
    if stat.is_dir {
        if stat.has_definition_inside {
            match r {
                Ok(ModelPathKind::Json(p)) => p@ == joined_definition_path(path),
                _ => false,
            }
        } else {
            match r {
                Err(TokenizerError::NotFound { path: q, in_directory }) => q@ == path
                    && in_directory,
                _ => false,
            }
        }
    } else if stat.is_file {
        if has_json_extension(path) {
            match r {
                Ok(ModelPathKind::Json(p)) => p@ == path,
                _ => false,
            }
        } else {
            match r {
                Err(TokenizerError::UnsupportedFormat { path: q }) => q@ == path,
                _ => false,
            }
        }
    } else {
        match r {
            Err(TokenizerError::NotFound { path: q, in_directory }) => q@ == path
                && !in_directory,
            _ => false,
        }
    }
}

/// Classify a path from the filesystem facts about it, without touching the
/// filesystem itself: the pure core of the model locator.
pub fn resolve_with(path: &str, stat: PathStat) -> (r: Result<ModelPathKind, TokenizerError>)
    ensures
        resolve_decision(path@, stat, r),
{
    if stat.is_dir {
        if stat.has_definition_inside {
            Ok(ModelPathKind::Json(join_definition_path(path)))
        } else {
            Err(TokenizerError::NotFound { path: path.to_owned(), in_directory: true })
        }
    } else if stat.is_file {
        if is_json_path(path) {
            Ok(ModelPathKind::Json(path.to_owned()))
        } else {
            Err(TokenizerError::UnsupportedFormat { path: path.to_owned() })
        }
    } else {
        Err(TokenizerError::NotFound { path: path.to_owned(), in_directory: false })
    }
}

/// Law: every resolution failure reports the given path exactly. A
/// directory lacking a definition file yields `NotFound` whose message
/// names the directory and asks for conversion to `tokenizer.json`; an
/// existing file without a `json` extension yields `UnsupportedFormat`
/// naming the file; a path that is neither yields `NotFound` saying the
/// path does not exist.
pub proof fn lemma_resolution_messages(
    path: Seq<char>,
    stat: PathStat,
    r: Result<ModelPathKind, TokenizerError>,
)
    requires
        resolve_decision(path, stat, r),
    ensures
        stat.is_dir && !stat.has_definition_inside ==> (r matches Err(e)
            && e matches TokenizerError::NotFound { .. } && e.spec_message()
            == "No tokenizer.json found in directory: "@ + path
            + ". Convert .model to tokenizer.json first."@),
        !stat.is_dir && stat.is_file && !has_json_extension(path) ==> (r matches Err(e)
            && e matches TokenizerError::UnsupportedFormat { .. } && e.spec_message()
            == "Provided file is not tokenizer.json: "@ + path),
        !stat.is_dir && !stat.is_file ==> (r matches Err(e)
            && e matches TokenizerError::NotFound { .. } && e.spec_message()
            == "Path does not exist: "@ + path),
{
}

/// Relies on std's `Path::is_dir`: true when the path exists on disk and
/// names a directory.
#[verifier::external_body]
fn path_is_dir(path: &str) -> bool {
    std::path::Path::new(path).is_dir()
}

/// Relies on std's `Path::is_file`: true when the path exists on disk and
/// names a regular file.
#[verifier::external_body]
fn path_is_file(path: &str) -> bool {
    std::path::Path::new(path).is_file()
}

/// Resolve a user-supplied path to the definition file it designates, or a
/// precise failure: the outcome follows `resolve_decision` for the facts the
/// filesystem reported at call time. In particular every reported path is
/// the given one, and a file is only accepted with a `json` extension.
pub fn resolve_model_path(path: &str) -> (r: Result<ModelPathKind, TokenizerError>)
    ensures
        exists|stat: PathStat| resolve_decision(path@, stat, r),
        match r {
            Ok(ModelPathKind::Json(p)) => (p@ == path@ && has_json_extension(path@)) || p@
                == joined_definition_path(path@),
            Err(e) => match e {
                TokenizerError::NotFound { path: q, in_directory: _ } => q@ == path@,
                TokenizerError::UnsupportedFormat { path: q } => q@ == path@
                    && !has_json_extension(path@),
                _ => false,
            },
        },
{
    let is_dir = path_is_dir(path);
    let is_file = if is_dir {
        false
    } else {
        path_is_file(path)
    };
    let has_definition_inside = if is_dir {
        let inside = join_definition_path(path);
        path_is_file(inside.as_str())
    } else {
        false
    };
    let stat = PathStat { is_dir, is_file, has_definition_inside };
    let r = resolve_with(path, stat);
    proof {
        assert(resolve_decision(path@, stat, r));
    }
    r
}

} // verus!
