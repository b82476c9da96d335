//! What happens when the window is asked to close, and what the widget says
//! when its countdown ends.
use vstd::prelude::*;

verus! {

/// One step of the close sequence.
#[derive(Clone, Copy, Debug, PartialEq, Eq, Structural)]
pub enum CloseStep {
    /// Hide the window.
    Hide,
    /// End the whole process.
    Exit,
}

/// The steps of the close sequence, in order, when the window is still
/// alive (`window_live`) or already gone.
pub open spec fn close_sequence(window_live: bool) -> Seq<CloseStep> {
    if window_live {
        seq![CloseStep::Hide, CloseStep::Exit]
    } else {
        seq![CloseStep::Exit]
    }
}

/// The steps to take on a close request: the window is hidden where it is
/// still alive, and the process ends in every case, as the last step.
pub fn close_steps(window_live: bool) -> (r: Vec<CloseStep>)
    ensures
        r@ == close_sequence(window_live),
        r@.len() > 0 && r@.last() == CloseStep::Exit,
        r@.contains(CloseStep::Hide) <==> window_live,
{
    let mut steps: Vec<CloseStep> = Vec::new();
    if window_live {
        steps.push(CloseStep::Hide);
    }
    steps.push(CloseStep::Exit);
    proof {
        if window_live {
            assert(steps@ =~= seq![CloseStep::Hide, CloseStep::Exit]);
            assert(steps@[0] == CloseStep::Hide);
        } else {
            assert(steps@ =~= seq![CloseStep::Exit]);
            assert(!steps@.contains(CloseStep::Hide)) by {
                if steps@.contains(CloseStep::Hide) {
                    let i = choose|i: int| 0 <= i < steps@.len() && steps@[i] == CloseStep::Hide;
                    assert(steps@[i] == CloseStep::Exit);
                }
            }
        }
    }
    steps
}

/// The desktop notification raised when the countdown ends.
#[derive(Clone, Debug)]
pub struct Alert {
    pub summary: String,
    pub body: String,
    pub icon: String,
    pub app_name: String,
    pub sound: String,
    /// How long it stays, in milliseconds; 0 keeps it until dismissed.
    pub timeout_ms: u32,
}

/// The notification for the end of the countdown: it stays until dismissed.
pub fn timer_finished_alert() -> (r: Alert)
    ensures
        r.summary@ == "雪球"@,
        r.body@ == "定时任务结束！"@,
        r.icon@ == "thunderbird"@,
        r.app_name@ == "thunderbird"@,
        r.sound@ == "Alarm"@,
        r.timeout_ms == 0,
{
    Alert {
        summary: "雪球".to_string(),
        body: "定时任务结束！".to_string(),
        icon: "thunderbird".to_string(),
        app_name: "thunderbird".to_string(),
        sound: "Alarm".to_string(),
        timeout_ms: 0,
    }
}

} // verus!
