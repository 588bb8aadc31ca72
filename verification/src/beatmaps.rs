//! Beatmaps and beatmapsets.

use vstd::prelude::*;
use crate::entities::{BeatmapModel, BeatmapsetModel};

verus! {

/// The client-facing view of a beatmap.
#[derive(Debug, PartialEq, Eq)]
pub struct DisplayBeatmap {
    pub base: BeatmapModel,
    pub id: i32,
}

impl DisplayBeatmap {
    pub fn new(base: BeatmapModel) -> (d: Self)
        ensures
            d.base == base,
            d.id == base.id,
    {
        let id = base.id;
        Self { base, id }
    }
}

/// The client-facing view of a beatmapset.
#[derive(Debug, PartialEq, Eq)]
pub struct DisplayBeatmapset {
    pub base: BeatmapsetModel,
    pub id: i32,
}

impl DisplayBeatmapset {
    pub fn new(base: BeatmapsetModel) -> (d: Self)
        ensures
            d.base == base,
            d.id == base.id,
    {
        let id = base.id;
        Self { base, id }
    }
}

/// A beatmap together with the view of the beatmapset it belongs to.
#[derive(Debug, PartialEq, Eq)]
pub struct FullBeatmap {
    pub base: BeatmapModel,
    pub beatmapset: DisplayBeatmapset,
}

/// A beatmapset together with its beatmaps.
#[derive(Debug, PartialEq, Eq)]
pub struct FullBeatmapset {
    pub base: BeatmapsetModel,
    pub beatmaps: Vec<FullBeatmap>,
}

} // verus!
