//! Turns the records of a recorded conversation into one highlighted
//! display-markup document.
//!
//! `record` holds the data model and what each record contributes to the
//! lightweight-markup document, `extract` builds that document, `highlight`
//! colours one code region, `render` finds the fenced regions, substitutes
//! their markup and produces the final document, and `pipeline` puts the
//! stages in sequence and holds what is decided about the external renderer.

pub mod record;
pub mod extract;
pub mod highlight;
pub mod render;
pub mod pipeline;
