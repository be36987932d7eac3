use vstd::prelude::*;

verus! {

/// A pixel-buffer renderer: a rectangular surface of pixels with drawing
/// primitives and a synchronization point. Implementations are supplied by
/// graphics backends outside this crate's scope.
pub trait Renderer {
    type Pixel: Copy;

    type Error;

    fn width(&self) -> u32;

    fn height(&self) -> u32;

    fn data(&self) -> &Vec<Self::Pixel>;

    fn sync(&mut self) -> Result<bool, Self::Error>;

    fn pixel(&mut self, x: u32, y: u32, pix: Self::Pixel) -> Result<(), Self::Error>;

    fn arc(&mut self, x: u32, y: u32, parts: u8, pix: Self::Pixel) -> Result<(), Self::Error>;

    fn circle(&mut self, x: u32, y: u32, radius: i32, pix: Self::Pixel) -> Result<
        (),
        Self::Error,
    >;

    fn rect(&mut self, x: u32, y: u32, width: u32, height: u32) -> Result<(), Self::Error>;

    fn overwrite_with(
        &mut self,
        x: u32,
        y: u32,
        buffer_width: u32,
        buffer_height: u32,
        buffer: &Vec<Self::Pixel>,
    ) -> Result<(), Self::Error>;
}

/// A renderer that can be created from nothing but its dimensions.
pub trait MakeRenderer: Renderer + Sized {
    fn new(width: u32, height: u32) -> Result<Self, Self::Error>;
}

} // verus!
