use vstd::prelude::*;

pub mod buffer;
pub mod calendar;
pub mod download;
pub mod model;
pub mod pipeline;
pub mod storage;
pub mod text;
pub mod transcript;
pub mod upload;
pub mod wav;
