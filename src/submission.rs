use vstd::prelude::*;

verus! {

/// What a render pass does with the contents already in its target.
#[derive(Clone, Copy, Debug, PartialEq, Eq, Structural)]
pub enum LoadPolicy {
    /// Keep the scene that was drawn before the pass.
    Load,
    /// Start from a cleared target.
    Clear,
}

/// What a render pass does with what it drew.
#[derive(Clone, Copy, Debug, PartialEq, Eq, Structural)]
pub enum StorePolicy {
    Store,
    Discard,
}

/// The load and store operations of one colour attachment.
#[derive(Clone, Copy, Debug, PartialEq, Eq, Structural)]
pub struct PassOps {
    pub load: LoadPolicy,
    pub store: StorePolicy,
}

/// One step of handing a tessellated overlay frame to the GPU.
#[derive(Clone, Copy, Debug, PartialEq, Eq, Structural)]
pub enum SubmitStep {
    /// Upload the texture at this index of the frame's list of textures to set.
    UploadTexture(usize),
    /// Upload the vertex and index buffers of the tessellated batches.
    UploadBuffers,
    /// Record one render pass that draws the batches into the target.
    RenderPass(PassOps),
    /// Release the texture at this index of the frame's list of textures to free.
    FreeTexture(usize),
}

/// The overlay is composited over the scene: it loads the target and stores the result.
pub open spec fn overlay_ops() -> PassOps {
    PassOps { load: LoadPolicy::Load, store: StorePolicy::Store }
}

/// Uploads of the first `n` textures to set, in list order.
pub open spec fn uploads(n: nat) -> Seq<SubmitStep> {
    Seq::new(n, |i: int| SubmitStep::UploadTexture(i as usize))
}

/// Releases of the first `n` textures to free, in list order.
pub open spec fn frees(n: nat) -> Seq<SubmitStep> {
    Seq::new(n, |i: int| SubmitStep::FreeTexture(i as usize))
}

/// The full submission of a frame that sets `n_set` textures and frees `n_free`.
pub open spec fn submission(n_set: nat, n_free: nat) -> Seq<SubmitStep> {
    uploads(n_set) + seq![SubmitStep::UploadBuffers, SubmitStep::RenderPass(overlay_ops())]
        + frees(n_free)
}

/// The pass operations of the overlay's render pass.
pub fn overlay_pass_ops() -> (r: PassOps)
    ensures
        r == overlay_ops(),
{
    PassOps { load: LoadPolicy::Load, store: StorePolicy::Store }
}

/// Plans the GPU work of one frame: every texture to set is uploaded, then the
/// buffers, then one render pass over the preserved target, then every texture
/// to free is released.
pub fn submission_steps(n_set: usize, n_free: usize) -> (r: Vec<SubmitStep>)
    ensures
        r@ == submission(n_set as nat, n_free as nat),
{
    let mut r: Vec<SubmitStep> = Vec::new();
    let mut i: usize = 0;
    while i < n_set
        invariant
            i <= n_set,
            r@ == uploads(i as nat),
        decreases n_set - i,
    {
        r.push(SubmitStep::UploadTexture(i));
        i = i + 1;
        assert(r@ =~= uploads(i as nat));
    }
    r.push(SubmitStep::UploadBuffers);
    r.push(SubmitStep::RenderPass(overlay_pass_ops()));
    let ghost head = r@;
    assert(head =~= uploads(n_set as nat) + seq![
        SubmitStep::UploadBuffers,
        SubmitStep::RenderPass(overlay_ops()),
    ]);
    let mut j: usize = 0;
    while j < n_free
        invariant
            j <= n_free,
            r@ == head + frees(j as nat),
        decreases n_free - j,
    {
        r.push(SubmitStep::FreeTexture(j));
        j = j + 1;
        assert(r@ =~= head + frees(j as nat));
    }
    r
}

/// In a frame's submission there is exactly one render pass, which keeps the
/// scene it draws over and stores the result; every texture to set is uploaded
/// exactly once and before it, the buffers are uploaded just before it, and
/// every texture to free is released exactly once and after it.
pub proof fn lemma_submission_order(n_set: usize, n_free: usize)
    ensures
        submission(n_set as nat, n_free as nat).len() == n_set + n_free + 2,
        submission(n_set as nat, n_free as nat)[n_set + 1] == SubmitStep::RenderPass(
            overlay_ops(),
        ),
        submission(n_set as nat, n_free as nat)[n_set as int] == SubmitStep::UploadBuffers,
        forall|k: int|
            0 <= k < n_set + n_free + 2 && (#[trigger] submission(
                n_set as nat,
                n_free as nat,
            )[k]) is RenderPass ==> k == n_set + 1,
        forall|k: int|
            0 <= k < n_set + n_free + 2 ==> ((#[trigger] submission(
                n_set as nat,
                n_free as nat,
            )[k]) matches SubmitStep::UploadTexture(t) <==> k < n_set),
        forall|k: int|
            0 <= k < n_set + n_free + 2 ==> ((#[trigger] submission(
                n_set as nat,
                n_free as nat,
            )[k]) matches SubmitStep::UploadTexture(t) ==> t == k),
        forall|k: int|
            0 <= k < n_set + n_free + 2 ==> ((#[trigger] submission(
                n_set as nat,
                n_free as nat,
            )[k]) matches SubmitStep::FreeTexture(t) <==> n_set + 2 <= k),
        forall|k: int|
            0 <= k < n_set + n_free + 2 ==> ((#[trigger] submission(
                n_set as nat,
                n_free as nat,
            )[k]) matches SubmitStep::FreeTexture(t) ==> t == k - n_set - 2),
{
    let s = submission(n_set as nat, n_free as nat);
    let mid = seq![SubmitStep::UploadBuffers, SubmitStep::RenderPass(overlay_ops())];
    assert(s =~= uploads(n_set as nat) + mid + frees(n_free as nat));
    assert forall|k: int| 0 <= k < n_set + n_free + 2 implies
        #[trigger] s[k] == if k < n_set {
            SubmitStep::UploadTexture(k as usize)
        } else if k == n_set {
            SubmitStep::UploadBuffers
        } else if k == n_set + 1 {
            SubmitStep::RenderPass(overlay_ops())
        } else {
            SubmitStep::FreeTexture((k - n_set - 2) as usize)
        } by {
        if k < n_set {
            assert(s[k] == uploads(n_set as nat)[k]);
        } else if k < n_set + 2 {
            assert(s[k] == mid[k - n_set]);
        } else {
            assert(s[k] == frees(n_free as nat)[k - n_set - 2]);
        }
    }
}

} // verus!
