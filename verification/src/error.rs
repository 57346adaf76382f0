//! The failures that end the program.

use vstd::prelude::*;

verus! {

/// A failure from which the program does not recover: each one ends the
/// process with a diagnostic message.
#[derive(Clone, Copy, Debug, PartialEq, Eq, Structural)]
pub enum FatalError {
    /// An asset could not be brought into memory.
    AssetNotFound,
    /// The bytes of an asset are not what its format asks for.
    AssetDecodeError,
    /// The window, the shaders or a texture could not be set up.
    GraphicsInitError,
    /// A frame could not be drawn or presented.
    DrawError,
}

/// The places at which the program can fail: the steps of its startup, in
/// the order in which it takes them, and the two steps of every frame that it
/// draws.
#[derive(Clone, Copy, Debug, PartialEq, Eq, Structural)]
pub enum Stage {
    /// Building the window and its graphics context.
    Window,
    /// Loading the bytes of the font.
    FontLoad,
    /// Parsing the font.
    FontDecode,
    /// Loading the bytes of the picture.
    ImageLoad,
    /// Decoding the picture.
    ImageDecode,
    /// Making a texture of the picture.
    Texture,
    /// Building the renderer, which compiles the shaders.
    Shaders,
    /// Issuing the draw commands of a frame.
    Draw,
    /// Presenting a finished frame.
    Present,
}

impl Stage {
    /// The failure that a failed stage amounts to.
    pub open spec fn failure(self) -> FatalError {
        match self {
            Stage::Window | Stage::Texture | Stage::Shaders => FatalError::GraphicsInitError,
            Stage::FontLoad | Stage::ImageLoad => FatalError::AssetNotFound,
            Stage::FontDecode | Stage::ImageDecode => FatalError::AssetDecodeError,
            Stage::Draw | Stage::Present => FatalError::DrawError,
        }
    }
}

impl FatalError {
    /// The failure that ends the program when the given stage fails. There is
    /// no stage whose failure the program survives.
    pub fn at(stage: Stage) -> (failure: FatalError)
        ensures
            failure == stage.failure(),
    {
        match stage {
            Stage::Window => FatalError::GraphicsInitError,
            Stage::FontLoad => FatalError::AssetNotFound,
            Stage::FontDecode => FatalError::AssetDecodeError,
            Stage::ImageLoad => FatalError::AssetNotFound,
            Stage::ImageDecode => FatalError::AssetDecodeError,
            Stage::Texture => FatalError::GraphicsInitError,
            Stage::Shaders => FatalError::GraphicsInitError,
            Stage::Draw => FatalError::DrawError,
            Stage::Present => FatalError::DrawError,
        }
    }

    /// The diagnostic message of each failure, as a sequence of characters.
    pub open spec fn message_spec(self) -> Seq<char> {
        match self {
            FatalError::AssetNotFound => "asset not found"@,
            FatalError::AssetDecodeError => "asset could not be decoded"@,
            FatalError::GraphicsInitError => "graphics could not be initialised"@,
            FatalError::DrawError => "frame could not be drawn"@,
        }
    }

    /// The message that the program prints before it gives up.
    pub fn message(&self) -> (text: &'static str)
        ensures
            text@ == self.message_spec(),
    {
        match self {
            FatalError::AssetNotFound => "asset not found",
            FatalError::AssetDecodeError => "asset could not be decoded",
            FatalError::GraphicsInitError => "graphics could not be initialised",
            FatalError::DrawError => "frame could not be drawn",
        }
    }
}

} // verus!
