//! Properties that relate several operations of the library.
use vstd::prelude::*;

use crate::command::Command;
use crate::lifecycle::{
    spec_resume_plan, spec_resumed, spec_suspended, spec_user_event, ActiveRenderState, AppModel,
    RenderState, ResumePlan, SurfaceInfo, UserAction, WindowHandle,
};
use crate::scene::{entries_of, is_drawing, spec_stroke_visible, EntryModel};

verus! {

/// The fill color that a command carries; `0` where it has none.
pub open spec fn fill_color_of(c: Command) -> u32 {
    match c {
        Command::DrawCircle { fill_color, .. } => fill_color,
        Command::DrawPolygon { fill_color, .. } => fill_color,
        _ => 0,
    }
}

/// The stroke color that a command carries; `0` where it has none.
pub open spec fn stroke_color_of(c: Command) -> u32 {
    match c {
        Command::DrawCircle { stroke: Some(s), .. } => s.color,
        Command::DrawLine { stroke: Some(s), .. } => s.color,
        Command::DrawPolyline { stroke: Some(s), .. } => s.color,
        Command::DrawPolygon { stroke: Some(s), .. } => s.color,
        _ => 0,
    }
}

/// The text color that a command carries; `0` where it has none.
pub open spec fn text_color_of(c: Command) -> u32 {
    match c {
        Command::DrawText { run } => run.color,
        _ => 0,
    }
}

/// The sentinel color `0` never reaches the scene: a command whose fill (stroke,
/// text) color is `0` adds no fill (stroke, text) entry.
pub proof fn lemma_zero_color_is_never_drawn(c: Command)
    ensures
        fill_color_of(c) == 0 ==> forall|i: int|
            0 <= i < entries_of(c).len() ==> !(#[trigger] entries_of(c)[i] is Fill),
        stroke_color_of(c) == 0 ==> forall|i: int|
            0 <= i < entries_of(c).len() ==> !(#[trigger] entries_of(c)[i] is Stroke),
        text_color_of(c) == 0 ==> forall|i: int|
            0 <= i < entries_of(c).len() ==> !(#[trigger] entries_of(c)[i] is Text),
{
}

/// The state after the commands, applied one after the other.
pub open spec fn run_commands(m: AppModel, cmds: Seq<Command>) -> AppModel
    decreases cmds.len(),
{
    if cmds.len() == 0 {
        m
    } else {
        spec_user_event(run_commands(m, cmds.drop_last()), cmds.last()).0
    }
}

/// The entries of the commands, in the order of the commands.
pub open spec fn entries_of_all(cmds: Seq<Command>) -> Seq<EntryModel>
    decreases cmds.len(),
{
    if cmds.len() == 0 {
        seq![]
    } else {
        entries_of_all(cmds.drop_last()) + entries_of(cmds.last())
    }
}

/// Commands applied in turn while a surface exists are all applied, in the order
/// sent: the scene grows by the entries of each, one command after the other.
/// (A new page or a close ends this.)
pub proof fn lemma_commands_applied_in_order(m: AppModel, cmds: Seq<Command>)
    requires
        m.state is Active,
        !m.exited,
        forall|i: int| 0 <= i < cmds.len() ==> !(#[trigger] cmds[i] is CloseWindow) && !(
        cmds[i] is NewPage),
    ensures
        run_commands(m, cmds).scene == m.scene + entries_of_all(cmds),
        run_commands(m, cmds).state == m.state,
        !run_commands(m, cmds).exited,
    decreases cmds.len(),
{
    if cmds.len() == 0 {
        assert(m.scene + seq![] =~= m.scene);
    } else {
        let init = cmds.drop_last();
        assert forall|i: int| 0 <= i < init.len() implies !(#[trigger] init[i] is CloseWindow) && !(
        init[i] is NewPage) by {
            assert(init[i] == cmds[i]);
        }
        lemma_commands_applied_in_order(m, init);
        assert(cmds[cmds.len() - 1] == cmds.last());
        let before = run_commands(m, init);
        assert(before.scene + entries_of(cmds.last()) =~= m.scene + entries_of_all(cmds));
    }
}

/// A resize leaves the scene as it was, and a drawing command after it appends
/// its entries with the geometry it carried.
pub proof fn lemma_resize_then_draw(m: AppModel, width: u32, height: u32, draw: Command)
    requires
        m.state is Active,
        !m.exited,
        is_drawing(draw),
    ensures
        ({
            let (m1, a1) = spec_user_event(m, Command::ResizeWindow { width, height });
            let (m2, _) = spec_user_event(m1, draw);
            &&& a1 == UserAction::RequestInnerSize { width, height }
            &&& m1.scene == m.scene
            &&& m2.scene == m.scene + entries_of(draw)
        }),
{
}

/// Suspending and resuming keeps the window and the scene, and puts the new
/// surface in place of the old one.
pub proof fn lemma_suspend_resume_round_trip(
    m: AppModel,
    new_window: WindowHandle,
    surface: SurfaceInfo,
    n_devices: usize,
)
    requires
        m.state is Active,
        !m.exited,
        surface.dev_id < n_devices,
    ensures
        ({
            let window = m.state->Active_0.window;
            let m1 = spec_suspended(m);
            let (m2, _) = spec_resumed(m1, new_window, surface, n_devices);
            &&& m1.state == RenderState::Suspended(Some(window))
            &&& spec_resume_plan(m1) == ResumePlan::ReuseWindow(window)
            &&& m2.state == RenderState::Active(ActiveRenderState { surface, window })
            &&& m2.scene == m.scene
            &&& m2.background_color == m.background_color
        }),
{
}

/// A close ends the loop in either state, and after the end no command is
/// applied.
pub proof fn lemma_close_in_any_state(m: AppModel, c: Command)
    ensures
        !m.exited ==> spec_user_event(m, Command::CloseWindow) == (
        AppModel { exited: true, ..m },
        UserAction::Exit,
        ),
        m.exited ==> spec_user_event(m, c) == (m, UserAction::Nothing),
{
}

} // verus!
