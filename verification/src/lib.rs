//! Course-platform logic of a media downloader: the catalogue of known
//! course platforms, URL classification, course-structure assembly, download
//! planning and the text it generates.
use vstd::prelude::*;

pub mod models;
pub mod text;
pub mod url_parts;
pub mod catalog;
pub mod duration;
pub mod ztm;
pub mod download;
pub mod media;
pub mod browser;
pub mod html;
pub mod tasks;
pub mod cli;
pub mod hotmart;
pub mod laws;

verus! {

} // verus!
