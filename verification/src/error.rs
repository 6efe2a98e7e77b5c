use vstd::prelude::*;

verus! {

use vstd::string::StringExecFns;

/// The failure conditions of the library. Each variant carries the plain
/// values its human-readable message is built from, so that contracts can
/// pin the message down exactly.
#[derive(Debug)]
pub enum TokenizerError {
    /// The given path does not exist, or names a directory with no
    /// `tokenizer.json` directly inside it (`in_directory` tells the
    /// two apart).
    NotFound { path: String, in_directory: bool },
    /// The given path names an existing file that is not a `.json`
    /// definition file.
    UnsupportedFormat { path: String },
    /// The external loader rejected a definition. `source` names the
    /// definition file when the definition came from the filesystem,
    /// and is `None` for an in-memory definition.
    LoadFailed { source: Option<String>, cause: String },
    /// A model has already been committed; it is never replaced.
    AlreadyInitialized,
    /// A query arrived before any successful initialization.
    NotInitialized,
    /// The model rejected the text during encoding.
    EncodeFailed { cause: String },
}

impl TokenizerError {
    /// The message that `message` returns for this error.
    pub open spec fn spec_message(self) -> Seq<char> {
        match self {
            TokenizerError::NotFound { path, in_directory: true } =>
                "No tokenizer.json found in directory: "@ + path@
                    + ". Convert .model to tokenizer.json first."@,
            TokenizerError::NotFound { path, in_directory: false } =>
                "Path does not exist: "@ + path@,
            TokenizerError::UnsupportedFormat { path } =>
                "Provided file is not tokenizer.json: "@ + path@,
            TokenizerError::LoadFailed { source: Some(source), cause } =>
                "Failed to load tokenizer from "@ + source@ + ": "@ + cause@,
            TokenizerError::LoadFailed { source: None, cause } => cause@,
            TokenizerError::AlreadyInitialized => "Tokenizer already initialized"@,
            TokenizerError::NotInitialized =>
                "Tokenizer is not initialized. Call init(path) first."@,
            TokenizerError::EncodeFailed { cause } => "Failed to encode text: "@ + cause@,
        }
    }

    /// A human-readable description of the error, naming the offending
    /// path or input and the underlying cause where one is available.
    pub fn message(&self) -> (m: String)
        ensures
            m@ == self.spec_message(),
    {
        match self {
            TokenizerError::NotFound { path, in_directory } => {
                if *in_directory {
                    let mut m = "No tokenizer.json found in directory: ".to_owned();
                    m.append(path.as_str());
                    m.append(". Convert .model to tokenizer.json first.");
                    m
                } else {
                    let mut m = "Path does not exist: ".to_owned();
                    m.append(path.as_str());
                    m
                }
            },
            TokenizerError::UnsupportedFormat { path } => {
                let mut m = "Provided file is not tokenizer.json: ".to_owned();
                m.append(path.as_str());
                m
            },
            TokenizerError::LoadFailed { source, cause } => {
                match source {
                    Some(p) => {
                        let mut m = "Failed to load tokenizer from ".to_owned();
                        m.append(p.as_str());
                        m.append(": ");
                        m.append(cause.as_str());
                        m
                    },
                    None => cause.as_str().to_owned(),
                }
            },
            TokenizerError::AlreadyInitialized => "Tokenizer already initialized".to_owned(),
            TokenizerError::NotInitialized =>
                "Tokenizer is not initialized. Call init(path) first.".to_owned(),
            TokenizerError::EncodeFailed { cause } => {
                let mut m = "Failed to encode text: ".to_owned();
                m.append(cause.as_str());
                m
            },
        }
    }
}

} // verus!
