//! The pure mapping from a service state to what the indicator and its
//! togglable control must show. This is the only road from the state
//! model to the display layer, which merely applies the directive.

use crate::state::ActiveStateEnum;
use crate::state::FailedStateEnum;
use crate::state::ServiceState;
use vstd::prelude::*;

verus! {

/// The indicator's visual mode. `Attention` signals a failed condition
/// and overrides the normal icon choice; `Active` shows the indicator
/// with one of the two normal icons.
#[derive(Clone, Copy, Debug, PartialEq, Eq, Structural)]
pub enum VisualMode {
    Active,
    Attention,
}

/// Which of the two normal-mode icons is selected. Consulted only when
/// the visual mode is `Active`.
#[derive(Clone, Copy, Debug, PartialEq, Eq, Structural)]
pub enum IconChoice {
    ActiveIcon,
    InactiveIcon,
}

/// Everything the display layer needs after a state change: the visual
/// mode, the icon for normal mode, and the checked state that the
/// togglable control must mirror.
#[derive(Clone, Copy, Debug, PartialEq, Eq, Structural)]
pub struct RenderDirective {
    pub mode: VisualMode,
    pub icon: IconChoice,
    pub control_checked: bool,
}

/// The one directive a state renders to: a failed state degrades to
/// attention mode whatever `active` holds; otherwise the icon follows
/// `active`. The control mirrors `active` in every case.
pub open spec fn spec_render(s: ServiceState) -> RenderDirective {
    RenderDirective {
        mode: if s.failed == FailedStateEnum::Failed {
            VisualMode::Attention
        } else {
            VisualMode::Active
        },
        icon: if s.active == ActiveStateEnum::Active {
            IconChoice::ActiveIcon
        } else {
            IconChoice::InactiveIcon
        },
        control_checked: s.active == ActiveStateEnum::Active,
    }
}

/// Map a state to its render directive.
pub fn render(state: &ServiceState) -> (r: RenderDirective)
    ensures
        r == spec_render(*state),
{
    let mode = match state.failed {
        FailedStateEnum::Failed => VisualMode::Attention,
        FailedStateEnum::Normal => VisualMode::Active,
    };
    let (icon, control_checked) = match state.active {
        ActiveStateEnum::Active => (IconChoice::ActiveIcon, true),
        ActiveStateEnum::Inactive => (IconChoice::InactiveIcon, false),
    };
    RenderDirective { mode, icon, control_checked }
}

/// Law: rendering is pure. Any two directives rendered from one and the
/// same state are identical.
pub proof fn lemma_render_pure(s: ServiceState, r1: RenderDirective, r2: RenderDirective)
    requires
        r1 == spec_render(s),
        r2 == spec_render(s),
    ensures
        r1 == r2,
{
}

/// Law: failure dominates presentation. Whenever the state is failed,
/// the rendered visual mode is attention, whatever `active` holds.
pub proof fn lemma_failed_renders_attention(s: ServiceState)
    requires
        s.failed == FailedStateEnum::Failed,
    ensures
        spec_render(s).mode == VisualMode::Attention,
{
}

} // verus!
