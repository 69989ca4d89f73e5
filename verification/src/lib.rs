//! Verified core of ProofDesk, a desktop proofreading tool for Chinese
//! manuscripts.  A manuscript (DOCX, or PDF whose text the front end
//! extracts) is imported as a project of normalized blocks; a proofreading
//! job sends the blocks to an OpenAI-compatible model and stores the issues
//! it reports, mapped back onto the original text.
//!
//! - `types`, `names`: the data model and the stored names of its
//!   enumerations.
//! - `docx`: reading the paragraphs of a DOCX archive.
//! - `import`: which files are imported, project naming, stored records.
//! - `sanitize`, `json`, `settings`: the text sent to the model, the JSON
//!   cut out of its reply, and the prompt.
//! - `proofread`: block selection, job statistics and final status, worker
//!   steps and what is recorded for each block.
//! - `repository`: decoding stored rows and encoding records.
//! - `state`: the projects whose jobs run in this process.
//! - `probe`: the command-line probe's arguments and output.
//! - `text`, `error`: character helpers and the error type.

pub mod text;
pub mod types;
pub mod names;
pub mod sanitize;
pub mod error;
pub mod repository;
pub mod settings;
pub mod json;
pub mod proofread;
pub mod docx;
pub mod import;
pub mod state;
pub mod probe;
