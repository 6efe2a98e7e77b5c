use vstd::prelude::*;

verus! {

use crate::error::TokenizerError;
use crate::locator::ModelPathKind;
use crate::locator::has_json_extension;
use crate::locator::joined_definition_path;
use crate::locator::resolve_model_path;

#[verifier::external_type_specification]
#[verifier::external_body]
pub struct ExTokenizer(tokenizers::Tokenizer);

/// Whether encoding with `model` is a pure function of the text. A model
/// configuration may draw fresh randomness on every call (a byte-pair model
/// with its dropout set does), and of such a model no per-call determinism
/// holds; the trusted contracts below therefore claim it only under this
/// guard. Nothing in the library asserts the guard of any particular model.
pub uninterp spec fn deterministic_model(model: tokenizers::Tokenizer) -> bool;

/// The token ids that `model` yields for `text` with special-token insertion
/// disabled, in text order; `None` when the model rejects the text. The name
/// is meaningful only for a model satisfying `deterministic_model`: the
/// trusted contracts tie outcomes to it only under that guard.
pub uninterp spec fn encode_of(model: tokenizers::Tokenizer, text: Seq<char>) -> Option<
    Seq<u32>,
>;

/// The model that parsing a definition text yields, or `None` when the text
/// is not a valid definition; parsing depends on the text alone.
pub uninterp spec fn parsed_model_of(definition: Seq<char>) -> Option<tokenizers::Tokenizer>;

/// Relies on tokenizers' `Tokenizer::from_file`: reads the file at `path`
/// and parses its contents as a tokenizer definition. The outcome depends on
/// what is on disk, so nothing is promised of it.
#[verifier::external_body]
fn load_from_file(path: &str) -> Result<tokenizers::Tokenizer, String> {
    match tokenizers::Tokenizer::from_file(path) {
        Ok(t) => Ok(t),
        Err(e) => Err(e.to_string()),
    }
}

/// Relies on tokenizers' `FromStr` impl for `Tokenizer`: parses an in-memory
/// definition text, deterministically in the text.
#[verifier::external_body]
fn load_from_text(definition: &str) -> (r: Result<tokenizers::Tokenizer, String>)
    ensures
        match r {
            Ok(t) => parsed_model_of(definition@) == Some(t),
            Err(_) => parsed_model_of(definition@) is None,
        },
{
    match definition.parse::<tokenizers::Tokenizer>() {
        Ok(t) => Ok(t),
        Err(e) => Err(e.to_string()),
    }
}

/// Relies on tokenizers' `Tokenizer::encode` with special-token insertion
/// disabled, and on `Encoding::get_ids`: the ids come in text order, and —
/// only for a model whose configuration draws no per-call randomness, which
/// `deterministic_model` stands for — the outcome is determined by the
/// model value and the text alone.
#[verifier::external_body]
fn encode_ids(model: &tokenizers::Tokenizer, text: &str) -> (r: Result<Vec<u32>, String>)
    ensures
        deterministic_model(*model) ==> match r {
            Ok(v) => encode_of(*model, text@) == Some(v@),
            Err(_) => encode_of(*model, text@) is None,
        },
{
    match model.encode(text, false) {
        Ok(encoding) => Ok(encoding.get_ids().to_vec()),
        Err(e) => Err(e.to_string()),
    }
}

/// A tokenizer session: holds at most one committed model, write-once for
/// its whole lifetime. Queries read the committed model and never change it.
pub struct Session {
    model: Option<tokenizers::Tokenizer>,
}

/// How every initialization operation may change a session: success only
/// ever moves an uninitialized session to initialized; any failure leaves
/// the session exactly as it was; an initialized session never accepts
/// another model; and `AlreadyInitialized` arises only on an initialized
/// session.
pub open spec fn init_transition(
    pre: Session,
    post: Session,
    r: Result<(), TokenizerError>,
) -> bool {
    &&& (r is Ok ==> !pre.initialized() && post.initialized())
    &&& (r is Err ==> post == pre)
    &&& (pre.initialized() ==> r is Err)
    &&& (match r {
        Err(TokenizerError::AlreadyInitialized) => pre.initialized(),
        _ => true,
    })
}

impl Session {
    /// Whether a model has been committed.
    pub closed spec fn initialized(self) -> bool {
        self.model is Some
    }

    /// The committed model; meaningful only when `initialized` holds.
    pub closed spec fn model_spec(self) -> tokenizers::Tokenizer {
        self.model->0
    }

    /// A fresh session: no model committed yet.
    pub fn new() -> (s: Session)
        ensures
            !s.initialized(),
    {
        Session { model: None }
    }

    /// Commit a loaded model: the write-once step shared by every
    /// initialization operation. Rejects exactly the already-initialized
    /// sessions, and never replaces a committed model.
    pub fn commit(&mut self, model: tokenizers::Tokenizer) -> (r: Result<(), TokenizerError>)
        ensures
            init_transition(*old(self), *final(self), r),
            old(self).initialized() ==> r matches Err(TokenizerError::AlreadyInitialized),
            !old(self).initialized() ==> r is Ok && final(self).model_spec() == model,
    {
        if self.model.is_some() {
            Err(TokenizerError::AlreadyInitialized)
        } else {
            self.model = Some(model);
            Ok(())
        }
    }

    /// Initialize from a filesystem path: resolve the path to a definition
    /// file, load it with the external loader, and commit the model. Errors
    /// name the offending path; the session changes only on success.
    pub fn init(&mut self, path: &str) -> (r: Result<(), TokenizerError>)
        ensures
            init_transition(*old(self), *final(self), r),
            match r {
                Ok(()) => true,
                Err(e) => match e {
                    TokenizerError::NotFound { path: q, in_directory: _ } => q@ == path@,
                    TokenizerError::UnsupportedFormat { path: q } => q@ == path@
                        && !has_json_extension(path@),
                    TokenizerError::LoadFailed { source: q, cause: _ } => match q {
                        Some(qq) => (qq@ == path@ && has_json_extension(path@)) || qq@
                            == joined_definition_path(path@),
                        None => false,
                    },
                    TokenizerError::AlreadyInitialized => old(self).initialized(),
                    TokenizerError::NotInitialized => false,
                    TokenizerError::EncodeFailed { cause: _ } => false,
                },
            },
    {
        let resolved = match resolve_model_path(path) {
            Ok(k) => k,
            Err(e) => {
                return Err(e);
            },
        };
        let json_path = match resolved {
            ModelPathKind::Json(p) => p,
        };
        let model = match load_from_file(json_path.as_str()) {
            Ok(t) => t,
            Err(cause) => {
                return Err(TokenizerError::LoadFailed { source: Some(json_path), cause });
            },
        };
        self.commit(model)
    }

    /// Initialize from an in-memory definition text, for hosts that already
    /// hold the definition. Succeeds exactly when the definition parses and
    /// no model was committed before.
    pub fn init_from_json(&mut self, json: &str) -> (r: Result<(), TokenizerError>)
        ensures
            init_transition(*old(self), *final(self), r),
            match r {
                Ok(()) => match parsed_model_of(json@) {
                    Some(m) => final(self).model_spec() == m,
                    None => false,
                },
                Err(e) => match e {
                    TokenizerError::LoadFailed { source: q, cause: _ } => q is None
                        && parsed_model_of(json@) is None,
                    TokenizerError::AlreadyInitialized => parsed_model_of(json@) is Some,
                    _ => false,
                },
            },
            !old(self).initialized() && parsed_model_of(json@) is Some ==> r is Ok,
    {
        let model = match load_from_text(json) {
            Ok(t) => t,
            Err(cause) => {
                return Err(TokenizerError::LoadFailed { source: None, cause });
            },
        };
        self.commit(model)
    }

    /// Everything `encode` promises: `NotInitialized` exactly on a session
    /// without a model; on an initialized session, success or `EncodeFailed`
    /// as the model decides — and, for a model whose encoding is
    /// deterministic, the ids are exactly those the model yields for the
    /// text, with failure exactly when the model rejects it.
    pub open spec fn encode_post(
        self,
        text: Seq<char>,
        r: Result<Vec<u32>, TokenizerError>,
    ) -> bool {
        match r {
            Ok(v) => self.initialized() && (deterministic_model(self.model_spec())
                ==> encode_of(self.model_spec(), text) == Some(v@)),
            Err(TokenizerError::NotInitialized) => !self.initialized(),
            Err(TokenizerError::EncodeFailed { cause: _ }) => self.initialized() && (
            deterministic_model(self.model_spec()) ==> encode_of(self.model_spec(), text)
                is None),
            Err(_) => false,
        }
    }

    /// Encode `text` into token ids, with special-token insertion disabled.
    /// Read-only: the session is untouched, so on a deterministic model
    /// identical calls are pinned to identical results.
    pub fn encode(&self, text: &str) -> (r: Result<Vec<u32>, TokenizerError>)
        ensures
            self.encode_post(text@, r),
    {
        match &self.model {
            None => Err(TokenizerError::NotInitialized),
            Some(m) => match encode_ids(m, text) {
                Ok(v) => Ok(v),
                Err(cause) => Err(TokenizerError::EncodeFailed { cause }),
            },
        }
    }

    /// Everything `count_internal` promises: the length of the encoding on
    /// success, and the same failures as `encode`.
    pub open spec fn count_post(
        self,
        text: Seq<char>,
        r: Result<usize, TokenizerError>,
    ) -> bool {
        match r {
            Ok(n) => self.initialized() && (deterministic_model(self.model_spec())
                ==> match encode_of(self.model_spec(), text) {
                Some(ids) => n as nat == ids.len(),
                None => false,
            }),
            Err(TokenizerError::NotInitialized) => !self.initialized(),
            Err(TokenizerError::EncodeFailed { cause: _ }) => self.initialized() && (
            deterministic_model(self.model_spec()) ==> encode_of(self.model_spec(), text)
                is None),
            Err(_) => false,
        }
    }

    /// The token count of `text`: the length of its encoding. This is the
    /// strict, error-propagating variant for internal callers.
    pub fn count_internal(&self, text: &str) -> (r: Result<usize, TokenizerError>)
        ensures
            self.count_post(text@, r),
    {
        match self.encode(text) {
            Ok(v) => Ok(v.len()),
            Err(e) => Err(e),
        }
    }

    /// The host-boundary count: it cannot fail. Zero stands for any internal
    /// error (no model committed, or the model rejected the text), and a
    /// count beyond `u32::MAX` clamps to `u32::MAX` rather than wrap.
    pub fn count(&self, text: &str) -> (n: u32)
        ensures
            !self.initialized() ==> n == 0,
            self.initialized() && deterministic_model(self.model_spec()) ==> match encode_of(
                self.model_spec(),
                text@,
            ) {
                Some(ids) => if ids.len() > u32::MAX as nat {
                    n == u32::MAX
                } else {
                    n as nat == ids.len()
                },
                None => n == 0,
            },
    {
        match self.count_internal(text) {
            Ok(c) => if c > u32::MAX as usize {
                u32::MAX
            } else {
                c as u32
            },
            Err(_) => 0,
        }
    }
}

/// Law: a count equals the length of the ids that encoding yields, whenever
/// both succeed on the same session and text. Stated for a session whose
/// model encodes deterministically: a model that draws randomness per call
/// can hand the two calls different segmentations.
pub proof fn lemma_count_matches_encode(
    s: Session,
    text: Seq<char>,
    re: Result<Vec<u32>, TokenizerError>,
    rc: Result<usize, TokenizerError>,
)
    requires
        deterministic_model(s.model_spec()),
        s.encode_post(text, re),
        s.count_post(text, rc),
        re is Ok,
        rc is Ok,
    ensures
        rc->Ok_0 as nat == re->Ok_0@.len(),
{
}

/// Law: on a model that encodes deterministically, encoding is a pure
/// function of the session's model and the text, so two successful encode
/// results on one session and one text are identical. The deterministic
/// premise is needed: a model that draws randomness per call (a byte-pair
/// model with dropout set) breaks it.
pub proof fn lemma_encode_idempotent(
    s: Session,
    text: Seq<char>,
    r1: Result<Vec<u32>, TokenizerError>,
    r2: Result<Vec<u32>, TokenizerError>,
)
    requires
        deterministic_model(s.model_spec()),
        s.encode_post(text, r1),
        s.encode_post(text, r2),
        r1 is Ok,
        r2 is Ok,
    ensures
        r1->Ok_0@ == r2->Ok_0@,
{
}

/// Law: write-once. Once a session is initialized, any further
/// initialization attempt fails, leaves the session unchanged, and every
/// later query outcome is exactly what it was before the attempt.
pub proof fn lemma_write_once(
    pre: Session,
    post: Session,
    r: Result<(), TokenizerError>,
    text: Seq<char>,
    q: Result<Vec<u32>, TokenizerError>,
)
    requires
        pre.initialized(),
        init_transition(pre, post, r),
    ensures
        r is Err,
        post == pre,
        post.encode_post(text, q) == pre.encode_post(text, q),
{
}

} // verus!
