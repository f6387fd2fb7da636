//! The uniform error channel: every expected failure is a value of one of
//! these enums, never a panic, so the host stays alive after any failure.

use vstd::prelude::*;

verus! {

/// A failure of configuration resolution, reported before any pipeline work.
#[derive(Clone, PartialEq, Eq, Debug)]
pub enum ConfigError {
    /// No resource directory was given and none can be derived from the
    /// input origin.
    MissingResourcesDir,
    /// The background color string is malformed; `input` is the offending
    /// string and `message` the parser's complaint.
    InvalidBackground { input: String, message: String },
    /// The shape-rendering selector is not one of the recognized values.
    UnknownShapeRendering { input: String },
    /// The text-rendering selector is not one of the recognized values.
    UnknownTextRendering { input: String },
    /// The image-rendering selector is not one of the recognized values.
    UnknownImageRendering { input: String },
}

/// A failure of one pipeline stage. Every variant is fatal for the current
/// call; none is retried or recovered.
#[derive(Clone, PartialEq, Eq, Debug)]
pub enum RenderError {
    /// The source file could not be read. Raised by the host shell, which
    /// performs the file I/O.
    Io { message: String },
    /// The source begins with the gzip magic prefix but does not decompress.
    Decompress { message: String },
    /// The source bytes are not valid UTF-8 text.
    Encoding,
    /// The source text is not well-formed markup.
    Parse { message: String },
    /// An explicit font file could not be loaded; `path` names the file.
    FontFile { path: String, message: String },
    /// The sizing mode yields a target with zero width or height.
    ZeroTarget,
    /// The pixel buffer for the target size could not be allocated.
    BufferAlloc,
    /// The rendered pixels could not be encoded.
    Encode { message: String },
}

} // verus!
