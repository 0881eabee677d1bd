//! HTML escaping for template output, and a wrapper that records whether a
//! value still has to be escaped before it is written out.

pub mod escaper;
pub mod lemmas;
pub mod markup;
pub mod text;

pub use escaper::escape;
pub use markup::MarkupDisplay;
