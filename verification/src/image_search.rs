//! The searches over one image, one after the other.
//!
//! The quick search runs first. Where it finds nothing and the exhaustive
//! search is asked for, the exhaustive search runs after it. Each step names
//! the transform to apply; the caller applies it, decodes what comes out,
//! and hands back how that went.

use crate::brute_force_decoder::{BruteForceConfig, BruteForceDecoder, TransformParams};
use crate::dedup::spec_dedup;
use crate::enhanced_processor::{
    spec_transform_sequence, EnhancedImageProcessor, TransformType, TRANSFORM_COUNT,
};
use crate::error::QRDecodeError;
use crate::pipeline::falls_back;
use crate::search::{spec_advance, Advance, AttemptOutcome, SearchStep};
use crate::types::{ProcessingConfig, QRCodeResult};
use vstd::prelude::*;

verus! {

/// Where the searches over an image stand.
#[derive(Debug, Clone, Copy, PartialEq, Eq, Structural)]
pub enum Stage {
    /// No search is under way.
    Idle,
    /// The quick search is under way.
    Quick,
    /// The exhaustive search is under way.
    Exhaustive,
}

/// What is to be done next for an image.
#[derive(Debug)]
pub enum PipelineStep {
    /// Apply this correction of the quick search, decode through the tiers,
    /// and come back with the outcome.
    Correct { index: usize, transform: TransformType },
    /// Apply this combination of the grid, with inversion where `invert`
    /// says so, decode, and come back with the outcome.
    Combine { index: usize, params: TransformParams, invert: bool },
    /// The searches are over; these are the codes that were found, possibly
    /// none.
    Finished(Vec<QRCodeResult>),
    /// The exhaustive search was to run and could not be had.
    Failed(QRDecodeError),
}

/// The searches over one image.
pub struct ImageSearch {
    config: ProcessingConfig,
    quick: EnhancedImageProcessor,
    grid: Result<BruteForceDecoder, QRDecodeError>,
    stage: Stage,
}

impl ImageSearch {
    /// What steers the searches.
    pub closed spec fn spec_config(&self) -> ProcessingConfig {
        self.config
    }

    /// The quick search.
    pub closed spec fn spec_quick(&self) -> EnhancedImageProcessor {
        self.quick
    }

    /// The exhaustive search, or why it cannot be had.
    pub closed spec fn spec_grid(&self) -> Result<BruteForceDecoder, QRDecodeError> {
        self.grid
    }

    /// Where the searches stand.
    pub closed spec fn spec_stage(&self) -> Stage {
        self.stage
    }

    /// Whether the exhaustive search has just begun as it should: its
    /// combinations are those of its grid, in order unless they are
    /// shuffled, and the first of them is to be tried; an empty grid ends
    /// the searches on the spot.
    pub open spec fn spec_grid_begun(
        before: BruteForceDecoder,
        randomize: bool,
        invert: bool,
        after: ImageSearch,
        step: PipelineStep,
    ) -> bool {
        &&& after.spec_grid() matches Ok(d) && {
            &&& d.spec_combinations().to_multiset() == before.spec_config().spec_grid().to_multiset()
            &&& !randomize ==> d.spec_combinations() == before.spec_config().spec_grid()
            &&& d.spec_cursor() == 0
            &&& d.spec_decoder() == before.spec_decoder()
            &&& d.spec_config() == (BruteForceConfig { randomize, ..before.spec_config() })
            &&& if d.spec_combinations().len() > 0 {
                step == (PipelineStep::Combine { index: 0, params: d.spec_combinations()[0], invert })
                    && after.spec_stage() == Stage::Exhaustive
            } else {
                step matches PipelineStep::Finished(found) && found@.len() == 0 && after.spec_stage()
                    == Stage::Idle
            }
        }
    }

    /// Whether `after` and `step` are what becomes of `before` when the
    /// attempt that was named last went as `outcome` says.
    ///
    /// While the quick search is under way, a hit ends the searches with
    /// what was read, and a miss moves on to the next correction. After the
    /// last correction the exhaustive search begins where it is asked for;
    /// where it cannot be had, that is a failure, and where it is not asked
    /// for, the searches end with nothing. While the exhaustive search is
    /// under way, a hit ends the searches with what was read, freed of
    /// repetitions; a miss moves on to the next combination, and after the
    /// last the searches end with nothing. Where no search is under way,
    /// none starts.
    pub open spec fn spec_advanced(
        before: ImageSearch,
        outcome: AttemptOutcome,
        after: ImageSearch,
        step: PipelineStep,
    ) -> bool {
        &&& after.spec_config() == before.spec_config()
        &&& match before.spec_stage() {
            Stage::Idle => {
                &&& step matches PipelineStep::Finished(found) && found@.len() == 0
                &&& after.spec_stage() == Stage::Idle
                &&& after.spec_quick() == before.spec_quick()
                &&& after.spec_grid() == before.spec_grid()
            },
            Stage::Quick => {
                &&& after.spec_quick().spec_transform_stats() == EnhancedImageProcessor::spec_stats_after(
                    before.spec_quick().spec_transform_stats(),
                    before.spec_quick().spec_cursor(),
                    outcome.is_hit() && before.spec_quick().spec_cursor() < TRANSFORM_COUNT,
                )
                &&& match spec_advance(
                    TRANSFORM_COUNT as int,
                    before.spec_quick().spec_cursor(),
                    outcome.is_hit(),
                ) {
                    Advance::Next(next) => {
                        &&& step == (PipelineStep::Correct {
                            index: next as usize,
                            transform: spec_transform_sequence()[next],
                        })
                        &&& after.spec_stage() == Stage::Quick
                        &&& after.spec_quick().spec_cursor() == next
                        &&& after.spec_grid() == before.spec_grid()
                    },
                    Advance::Stop { attempts, hit } => {
                        &&& after.spec_quick().spec_cursor() == TRANSFORM_COUNT
                        &&& if hit {
                            &&& step matches PipelineStep::Finished(found) && found@ == outcome.results()
                            &&& after.spec_stage() == Stage::Idle
                            &&& after.spec_grid() == before.spec_grid()
                        } else if !before.spec_config().brute_force {
                            &&& step matches PipelineStep::Finished(found) && found@.len() == 0
                            &&& after.spec_stage() == Stage::Idle
                            &&& after.spec_grid() == before.spec_grid()
                        } else {
                            match before.spec_grid() {
                                Ok(d) => Self::spec_grid_begun(
                                    d,
                                    before.spec_config().randomize,
                                    before.spec_config().invert,
                                    after,
                                    step,
                                ),
                                Err(e) => {
                                    &&& step == PipelineStep::Failed(e)
                                    &&& after.spec_stage() == Stage::Idle
                                    &&& after.spec_grid() == before.spec_grid()
                                },
                            }
                        }
                    },
                }
            },
            Stage::Exhaustive => {
                &&& after.spec_quick() == before.spec_quick()
                &&& match before.spec_grid() {
                    Ok(d) => {
                        &&& after.spec_grid() matches Ok(d2) && d2.spec_combinations()
                            == d.spec_combinations() && d2.spec_decoder() == d.spec_decoder()
                            && d2.spec_config() == d.spec_config()
                        &&& match spec_advance(
                            d.spec_combinations().len() as int,
                            d.spec_cursor(),
                            outcome.is_hit(),
                        ) {
                            Advance::Next(next) => {
                                &&& step == (PipelineStep::Combine {
                                    index: next as usize,
                                    params: d.spec_combinations()[next],
                                    invert: before.spec_config().invert,
                                })
                                &&& after.spec_stage() == Stage::Exhaustive
                                &&& after.spec_grid()->Ok_0.spec_cursor() == next
                            },
                            Advance::Stop { attempts, hit } => {
                                &&& step matches PipelineStep::Finished(found) && found@ == (if hit {
                                    spec_dedup(outcome.results())
                                } else {
                                    Seq::<QRCodeResult>::empty()
                                })
                                &&& after.spec_stage() == Stage::Idle
                            },
                        }
                    },
                    Err(_) => {
                        &&& step matches PipelineStep::Finished(found) && found@.len() == 0
                        &&& after.spec_stage() == Stage::Idle
                        &&& after.spec_grid() == before.spec_grid()
                    },
                }
            },
        }
    }

    /// The searches over one image under `config`, with no search under
    /// way. `grid` is the outcome of building the exhaustive search; its
    /// failure counts only where that search is to run.
    pub fn new(config: ProcessingConfig, grid: Result<BruteForceDecoder, QRDecodeError>) -> (r: Result<
        Self,
        QRDecodeError,
    >)
        ensures
            r matches Ok(s) && s.spec_config() == config && s.spec_grid() == grid && s.spec_stage()
                == Stage::Idle && s.spec_quick().spec_config() == config
                && s.spec_quick().spec_decoder_config() == config
                && s.spec_quick().spec_transform_stats() == Seq::new(
                TRANSFORM_COUNT as nat,
                |i: int| 0usize,
            ),
    {
        match EnhancedImageProcessor::new(config.clone()) {
            Ok(quick) => Ok(Self { config, quick, grid, stage: Stage::Idle }),
            Err(e) => Err(e),
        }
    }

    /// What steers the searches.
    pub fn config(&self) -> (c: &ProcessingConfig)
        ensures
            *c == self.spec_config(),
    {
        &self.config
    }

    /// The quick search.
    pub fn quick(&self) -> (q: &EnhancedImageProcessor)
        ensures
            *q == self.spec_quick(),
    {
        &self.quick
    }

    /// The exhaustive search, where it can be had.
    pub fn grid(&self) -> (g: Option<&BruteForceDecoder>)
        ensures
            match g {
                Some(d) => self.spec_grid() == Ok::<BruteForceDecoder, QRDecodeError>(*d),
                None => self.spec_grid() is Err,
            },
    {
        match &self.grid {
            Ok(d) => Some(d),
            Err(_) => None,
        }
    }

    /// Begins the searches: the first correction of the quick search is to
    /// be tried.
    pub fn begin(&mut self) -> (step: PipelineStep)
        ensures
            step == (PipelineStep::Correct { index: 0, transform: spec_transform_sequence()[0] }),
            final(self).spec_stage() == Stage::Quick,
            final(self).spec_config() == old(self).spec_config(),
            final(self).spec_grid() == old(self).spec_grid(),
            final(self).spec_quick().spec_cursor() == 0,
            final(self).spec_quick().spec_transform_stats() == old(
                self,
            ).spec_quick().spec_transform_stats(),
            final(self).spec_quick().spec_config() == old(self).spec_quick().spec_config(),
            final(self).spec_quick().spec_decoder_config() == old(
                self,
            ).spec_quick().spec_decoder_config(),
    {
        self.stage = Stage::Quick;
        match self.quick.begin() {
            SearchStep::Attempt { index, candidate } => PipelineStep::Correct {
                index,
                transform: candidate,
            },
            SearchStep::Finished(o) => PipelineStep::Finished(o.results),
        }
    }

    /// Begins the exhaustive search, or reports that it cannot be had.
    fn fall_back(&mut self) -> (step: PipelineStep)
        requires
            old(self).spec_stage() == Stage::Idle,
        ensures
            final(self).spec_config() == old(self).spec_config(),
            final(self).spec_quick() == old(self).spec_quick(),
            match old(self).spec_grid() {
                Ok(d) => Self::spec_grid_begun(
                    d,
                    old(self).spec_config().randomize,
                    old(self).spec_config().invert,
                    *final(self),
                    step,
                ),
                Err(e) => {
                    &&& step == PipelineStep::Failed(e)
                    &&& final(self).spec_stage() == Stage::Idle
                    &&& final(self).spec_grid() == old(self).spec_grid()
                },
            },
    {
        let mut taken: Result<BruteForceDecoder, QRDecodeError> = Err(QRDecodeError::NoQRCodeFound);
        std::mem::swap(&mut self.grid, &mut taken);
        match taken {
            Ok(mut d) => {
                let first = d.begin(self.config.randomize);
                self.grid = Ok(d);
                match first {
                    SearchStep::Attempt { index, candidate } => {
                        self.stage = Stage::Exhaustive;
                        PipelineStep::Combine { index, params: candidate, invert: self.config.invert }
                    },
                    SearchStep::Finished(o) => PipelineStep::Finished(o.results),
                }
            },
            Err(e) => {
                let told = e.copy();
                self.grid = Err(e);
                PipelineStep::Failed(told)
            },
        }
    }

    /// Goes on with the exhaustive search.
    fn advance_grid(&mut self, outcome: AttemptOutcome) -> (step: PipelineStep)
        requires
            old(self).spec_stage() == Stage::Exhaustive,
        ensures
            Self::spec_advanced(*old(self), outcome, *final(self), step),
    {
        let mut taken: Result<BruteForceDecoder, QRDecodeError> = Err(QRDecodeError::NoQRCodeFound);
        std::mem::swap(&mut self.grid, &mut taken);
        match taken {
            Ok(mut d) => {
                let next = d.detect_and_decode(outcome);
                self.grid = Ok(d);
                match next {
                    SearchStep::Attempt { index, candidate } => PipelineStep::Combine {
                        index,
                        params: candidate,
                        invert: self.config.invert,
                    },
                    SearchStep::Finished(o) => {
                        self.stage = Stage::Idle;
                        PipelineStep::Finished(o.results)
                    },
                }
            },
            Err(e) => {
                self.grid = Err(e);
                self.stage = Stage::Idle;
                PipelineStep::Finished(Vec::new())
            },
        }
    }

    /// Goes on with the searches, given how the attempt that was named last
    /// went.
    pub fn advance(&mut self, outcome: AttemptOutcome) -> (step: PipelineStep)
        ensures
            Self::spec_advanced(*old(self), outcome, *final(self), step),
    {
        match self.stage {
            Stage::Idle => PipelineStep::Finished(Vec::new()),
            Stage::Exhaustive => self.advance_grid(outcome),
            Stage::Quick => match self.quick.decode_with_transforms(outcome) {
                SearchStep::Attempt { index, candidate } => PipelineStep::Correct {
                    index,
                    transform: candidate,
                },
                SearchStep::Finished(o) => {
                    self.stage = Stage::Idle;
                    if falls_back(&self.config, &o.results) {
                        self.fall_back()
                    } else {
                        PipelineStep::Finished(o.results)
                    }
                },
            },
        }
    }
}

} // verus!
