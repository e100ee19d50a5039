//! The order of GPU work in the rendering bridge. The caller carries out the steps
//! against the GPU context and painter in exactly this order.
use vstd::prelude::*;

verus! {

/// One step of GPU work.
#[derive(Clone, Copy, Debug, PartialEq, Eq, Structural)]
pub enum RenderStep {
    /// Make the GPU context current on this thread.
    MakeCurrent,
    /// Load the GL entry points through the context.
    LoadFunctions,
    /// Create the painter; failure here is fatal to opening the window.
    CreatePainter,
    /// Clear to the background color.
    Clear,
    /// Upload the texture at this index of the tick's texture uploads.
    Upload(usize),
    /// Tessellate the tick's shapes at the current pixels-per-point.
    Tessellate,
    /// Draw the primitives over the whole physical size.
    Draw,
    /// Free the texture at this index of the tick's texture frees.
    Free(usize),
    SwapBuffers,
    /// Release the painter's textures, buffers and programs.
    DestroyPainter,
    /// Release the GPU context from this thread.
    MakeNotCurrent,
}

/// The steps of one render with `uploads` textures to upload and `frees` to free:
/// uploads before drawing, frees only after it, all inside one span in which the
/// context is current.
pub open spec fn render_plan(uploads: usize, frees: usize) -> Seq<RenderStep> {
    seq![RenderStep::MakeCurrent, RenderStep::Clear] + Seq::new(uploads as nat, |i: int| RenderStep::Upload(i as usize))
        + seq![RenderStep::Tessellate, RenderStep::Draw] + Seq::new(frees as nat, |i: int| RenderStep::Free(i as usize))
        + seq![RenderStep::SwapBuffers, RenderStep::MakeNotCurrent]
}

/// The steps of one render.
pub fn render_steps(uploads: usize, frees: usize) -> (r: Vec<RenderStep>)
    requires
        uploads + frees + 6 <= usize::MAX,
    ensures
        r@ == render_plan(uploads, frees),
{
    let mut steps: Vec<RenderStep> = Vec::new();
    steps.push(RenderStep::MakeCurrent);
    steps.push(RenderStep::Clear);
    let mut i: usize = 0;
    while i < uploads
        invariant
            i <= uploads,
            steps@ == seq![RenderStep::MakeCurrent, RenderStep::Clear] + Seq::new(i as nat, |k: int| RenderStep::Upload(k as usize)),
        decreases uploads - i,
    {
        steps.push(RenderStep::Upload(i));
        i = i + 1;
        assert(steps@ =~= seq![RenderStep::MakeCurrent, RenderStep::Clear] + Seq::new(i as nat, |k: int| RenderStep::Upload(k as usize)));
    }
    steps.push(RenderStep::Tessellate);
    steps.push(RenderStep::Draw);
    let ghost drawn = steps@;
    let mut j: usize = 0;
    while j < frees
        invariant
            j <= frees,
            steps@ == drawn + Seq::new(j as nat, |k: int| RenderStep::Free(k as usize)),
        decreases frees - j,
    {
        steps.push(RenderStep::Free(j));
        j = j + 1;
        assert(steps@ =~= drawn + Seq::new(j as nat, |k: int| RenderStep::Free(k as usize)));
    }
    steps.push(RenderStep::SwapBuffers);
    steps.push(RenderStep::MakeNotCurrent);
    assert(steps@ =~= render_plan(uploads, frees));
    steps
}

/// The steps that set up the painter: the context is current only while it is
/// created.
pub fn setup_steps() -> (r: Vec<RenderStep>)
    ensures
        r@ == seq![
            RenderStep::MakeCurrent,
            RenderStep::LoadFunctions,
            RenderStep::CreatePainter,
            RenderStep::MakeNotCurrent,
        ],
{
    let r = vec![
        RenderStep::MakeCurrent,
        RenderStep::LoadFunctions,
        RenderStep::CreatePainter,
        RenderStep::MakeNotCurrent,
    ];
    assert(r@ =~= seq![
        RenderStep::MakeCurrent,
        RenderStep::LoadFunctions,
        RenderStep::CreatePainter,
        RenderStep::MakeNotCurrent,
    ]);
    r
}

/// The steps that tear the painter down: its GPU resources go while the context
/// is current, before the context itself.
pub fn teardown_steps() -> (r: Vec<RenderStep>)
    ensures
        r@ == seq![RenderStep::MakeCurrent, RenderStep::DestroyPainter, RenderStep::MakeNotCurrent],
{
    let r = vec![RenderStep::MakeCurrent, RenderStep::DestroyPainter, RenderStep::MakeNotCurrent];
    assert(r@ =~= seq![RenderStep::MakeCurrent, RenderStep::DestroyPainter, RenderStep::MakeNotCurrent]);
    r
}

/// In a render, every upload comes before the draw and every free after it; each
/// texture of the tick is uploaded and freed exactly once; the context is made
/// current first and released last, and nothing else claims or releases it.
pub proof fn lemma_frees_follow_draw(uploads: usize, frees: usize)
    ensures
        ({
            let plan = render_plan(uploads, frees);
            &&& plan[0] == RenderStep::MakeCurrent
            &&& plan.last() == RenderStep::MakeNotCurrent
            &&& forall|i: int|
                1 <= i < plan.len() - 1 ==> plan[i] != RenderStep::MakeCurrent && plan[i]
                    != RenderStep::MakeNotCurrent
            &&& forall|i: int, j: int|
                0 <= i < plan.len() && 0 <= j < plan.len() && plan[i] is Upload && plan[j] is Draw ==> i < j
            &&& forall|i: int, j: int|
                0 <= i < plan.len() && 0 <= j < plan.len() && plan[i] is Free && plan[j] is Draw ==> j < i
            &&& forall|i: int|
                0 <= i < plan.len() && plan[i] is Upload ==> i == 2 + plan[i]->Upload_0 && plan[i]->Upload_0 < uploads
            &&& forall|i: int|
                0 <= i < plan.len() && plan[i] is Free ==> i == 4 + uploads + plan[i]->Free_0 && plan[i]->Free_0 < frees
            &&& forall|k: int| 0 <= k < uploads ==> #[trigger] plan[2 + k] == RenderStep::Upload(k as usize)
            &&& forall|k: int| 0 <= k < frees ==> #[trigger] plan[4 + uploads + k] == RenderStep::Free(k as usize)
        }),
{
    let plan = render_plan(uploads, frees);
    let n = uploads as int;
    assert(plan.len() == uploads + frees + 6);
    assert forall|i: int| 0 <= i < plan.len() implies {
        &&& (i < 2 ==> plan[i] == if i == 0 {
            RenderStep::MakeCurrent
        } else {
            RenderStep::Clear
        })
        &&& (2 <= i < 2 + n ==> plan[i] == RenderStep::Upload((i - 2) as usize))
        &&& (i == 2 + n ==> plan[i] == RenderStep::Tessellate)
        &&& (i == 3 + n ==> plan[i] == RenderStep::Draw)
        &&& (4 + n <= i < 4 + n + frees ==> plan[i] == RenderStep::Free((i - 4 - n) as usize))
        &&& (i == 4 + n + frees ==> plan[i] == RenderStep::SwapBuffers)
        &&& (i == 5 + n + frees ==> plan[i] == RenderStep::MakeNotCurrent)
    } by {}
}

} // verus!
