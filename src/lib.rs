//! Frame sequencing for a debug overlay drawn on top of a rendered scene.
//!
//! The GPU side of an overlay frame is planned here as a list of steps over
//! plain values; the host runs the steps against its GPU renderer.
mod submission;

pub use submission::{
    LoadPolicy, PassOps, StorePolicy, SubmitStep, frees, lemma_submission_order, overlay_ops,
    overlay_pass_ops, submission, submission_steps, uploads,
};
