use vstd::prelude::*;

verus! {

/// The category of a failure.
#[derive(Clone, Copy, Debug, PartialEq, Eq, Structural)]
pub enum ErrorKind {
    /// The command line could not be understood.
    Usage,
    /// The home directory could not be determined.
    Environment,
    /// A named entry or a declared path does not exist.
    NotFound,
    /// A template needs the palette but no wallpaper is declared.
    MissingWallpaper,
    /// A template's source is malformed.
    TemplateSyntax,
    /// A template refers to something that it cannot render, such as an
    /// undefined variable.
    TemplateRender,
    /// The palette could not be derived from the wallpaper.
    Palette,
    /// Any other failure, described by its message.
    Other,
}

/// A failure with a human-readable context.
#[derive(Clone, Debug)]
pub struct Error {
    pub kind: ErrorKind,
    pub ctx: String,
}

impl Error {
    pub fn new(kind: ErrorKind, ctx: String) -> (e: Error)
        ensures
            e.kind == kind,
            e.ctx@ == ctx@,
    {
        Error { kind, ctx }
    }

    /// The message shown to the user.
    pub fn message(&self) -> (r: String)
        ensures
            r@ == self.ctx@,
    {
        self.ctx.clone()
    }
}

impl From<String> for Error {
    fn from(value: String) -> (e: Error) {
        Error { kind: ErrorKind::Other, ctx: value }
    }
}

impl vstd::std_specs::convert::FromSpecImpl<String> for Error {
    open spec fn obeys_from_spec() -> bool {
        true
    }

    open spec fn from_spec(v: String) -> Error {
        Error { kind: ErrorKind::Other, ctx: v }
    }
}

} // verus!
