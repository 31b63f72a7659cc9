use gui_overlay::{
    overlay_pass_ops, submission_steps, LoadPolicy, PassOps, StorePolicy, SubmitStep,
};

fn composite() -> SubmitStep {
    SubmitStep::RenderPass(PassOps { load: LoadPolicy::Load, store: StorePolicy::Store })
}

#[test]
fn overlay_pass_keeps_the_scene() {
    let ops = overlay_pass_ops();
    assert_eq!(ops.load, LoadPolicy::Load);
    assert_eq!(ops.store, StorePolicy::Store);
}

#[test]
fn empty_frame_uploads_nothing_and_draws_once() {
    let steps = submission_steps(0, 0);
    assert_eq!(steps, vec![SubmitStep::UploadBuffers, composite()]);
}

#[test]
fn textures_are_set_before_and_freed_after_the_pass() {
    let steps = submission_steps(2, 3);
    assert_eq!(
        steps,
        vec![
            SubmitStep::UploadTexture(0),
            SubmitStep::UploadTexture(1),
            SubmitStep::UploadBuffers,
            composite(),
            SubmitStep::FreeTexture(0),
            SubmitStep::FreeTexture(1),
            SubmitStep::FreeTexture(2),
        ]
    );
}

#[test]
fn only_uploads_when_nothing_is_freed() {
    let steps = submission_steps(1, 0);
    assert_eq!(steps, vec![SubmitStep::UploadTexture(0), SubmitStep::UploadBuffers, composite()]);
}

#[test]
fn only_frees_when_nothing_is_set() {
    let steps = submission_steps(0, 1);
    assert_eq!(steps, vec![SubmitStep::UploadBuffers, composite(), SubmitStep::FreeTexture(0)]);
}

#[test]
fn exactly_one_render_pass_in_a_large_frame() {
    let n_set = 300;
    let n_free = 200;
    let steps = submission_steps(n_set, n_free);
    assert_eq!(steps.len(), n_set + n_free + 2);
    let passes: Vec<usize> = steps
        .iter()
        .enumerate()
        .filter(|(_, s)| matches!(s, SubmitStep::RenderPass(_)))
        .map(|(k, _)| k)
        .collect();
    assert_eq!(passes, vec![n_set + 1]);
    assert_eq!(steps[n_set], SubmitStep::UploadBuffers);
    for (k, s) in steps.iter().enumerate() {
        match s {
            SubmitStep::UploadTexture(t) => assert_eq!(*t, k),
            SubmitStep::FreeTexture(t) => assert_eq!(*t, k - n_set - 2),
            _ => {}
        }
    }
}
