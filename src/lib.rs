//! Adaptive chroma-key estimation for a webcam overlay.
//!
//! Once per frame the renderer hands the library a raw BGR buffer; the library
//! samples two corner pixels, decides whether they agree with each other and
//! with the previous estimate, and publishes the colour to key out. Beside it
//! stand the integer rules of the overlay window: camera switching and window
//! geometry.
pub mod camera;
pub mod chromakey;
pub mod color;
pub mod window;
