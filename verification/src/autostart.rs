//! Autostart toggles: which registrations to change.
//!
//! Normal autostart is a value under the user's `Run` registry key; elevated
//! autostart is a scheduled task with highest privileges. The two are kept
//! mutually exclusive. Reading and writing them is the adapter's work.

use vstd::prelude::*;

verus! {

/// One change the adapter carries out, in order.
#[derive(Debug, Clone, Copy, PartialEq, Eq, Structural)]
pub enum AutostartStep {
    /// Set (true) or delete (false) the `Run` key value.
    SetRunKey(bool),
    /// Create (true) or delete (false) the scheduled task.
    SetScheduledTask(bool),
    /// Relaunch elevated first; creating the task needs elevation.
    RestartElevated,
}

/// Toggle normal autostart: flip the `Run` value; when turning it on, drop
/// the scheduled task if there is one.
pub open spec fn normal_toggle_steps(normal_enabled: bool, elevated_enabled: bool) -> Seq<AutostartStep> {
    if !normal_enabled && elevated_enabled {
        seq![AutostartStep::SetRunKey(true), AutostartStep::SetScheduledTask(false)]
    } else {
        seq![AutostartStep::SetRunKey(!normal_enabled)]
    }
}

/// Toggle elevated autostart: when not elevated, restart elevated instead;
/// otherwise flip the scheduled task and, when turning it on, drop the
/// `Run` value if there is one.
pub open spec fn elevated_toggle_steps(is_elevated: bool, elevated_enabled: bool, normal_enabled: bool) -> Seq<AutostartStep> {
    if !is_elevated {
        seq![AutostartStep::RestartElevated]
    } else if !elevated_enabled && normal_enabled {
        seq![AutostartStep::SetScheduledTask(true), AutostartStep::SetRunKey(false)]
    } else {
        seq![AutostartStep::SetScheduledTask(!elevated_enabled)]
    }
}

pub fn toggle_normal(normal_enabled: bool, elevated_enabled: bool) -> (r: Vec<AutostartStep>)
    ensures
        r@ == normal_toggle_steps(normal_enabled, elevated_enabled),
{
    let mut steps: Vec<AutostartStep> = Vec::new();
    steps.push(AutostartStep::SetRunKey(!normal_enabled));
    if !normal_enabled && elevated_enabled {
        steps.push(AutostartStep::SetScheduledTask(false));
    }
    proof {
        assert(steps@ =~= normal_toggle_steps(normal_enabled, elevated_enabled));
    }
    steps
}

pub fn toggle_elevated(is_elevated: bool, elevated_enabled: bool, normal_enabled: bool) -> (r: Vec<AutostartStep>)
    ensures
        r@ == elevated_toggle_steps(is_elevated, elevated_enabled, normal_enabled),
{
    let mut steps: Vec<AutostartStep> = Vec::new();
    if !is_elevated {
        steps.push(AutostartStep::RestartElevated);
        proof {
            assert(steps@ =~= elevated_toggle_steps(is_elevated, elevated_enabled, normal_enabled));
        }
        return steps;
    }
    steps.push(AutostartStep::SetScheduledTask(!elevated_enabled));
    if !elevated_enabled && normal_enabled {
        steps.push(AutostartStep::SetRunKey(false));
    }
    proof {
        assert(steps@ =~= elevated_toggle_steps(is_elevated, elevated_enabled, normal_enabled));
    }
    steps
}

/// Appends `"` + `s` + `"`.
fn push_quoted(out: &mut String, s: &str)
    ensures
        final(out)@ == old(out)@ + seq!['"'] + s@ + seq!['"'],
{
    proof {
        reveal_strlit("\"");
    }
    out.append("\"");
    out.append(s);
    out.append("\"");
}

/// The `Run` value: the executable's path in double quotes.
pub fn run_key_value(exe: &str) -> (r: String)
    ensures
        r@ == seq!['"'] + exe@ + seq!['"'],
{
    let mut out = String::new();
    push_quoted(&mut out, exe);
    proof {
        assert(out@ =~= seq!['"'] + exe@ + seq!['"']);
    }
    out
}

/// The scheduled task's name.
pub open spec fn task_name() -> Seq<char> {
    "Alt3rSnap"@
}

/// The `schtasks.exe` arguments that create (a logon task at highest run
/// level for the quoted executable, replacing any existing one) or delete
/// the task.
pub open spec fn schtasks_arg_list(enabled: bool, exe: Seq<char>) -> Seq<Seq<char>> {
    if enabled {
        seq![
            "/Create"@,
            "/TN"@,
            task_name(),
            "/SC"@,
            "ONLOGON"@,
            "/RL"@,
            "HIGHEST"@,
            "/TR"@,
            seq!['"'] + exe + seq!['"'],
            "/F"@,
        ]
    } else {
        seq!["/Delete"@, "/TN"@, task_name(), "/F"@]
    }
}

pub fn schtasks_args(enabled: bool, exe: &str) -> (r: Vec<String>)
    ensures
        r@.len() == schtasks_arg_list(enabled, exe@).len(),
        forall|i: int| 0 <= i < r@.len() ==> (#[trigger] r@[i])@ == schtasks_arg_list(enabled, exe@)[i],
{
    let mut args: Vec<String> = Vec::new();
    if enabled {
        args.push(String::from_str("/Create"));
        args.push(String::from_str("/TN"));
        args.push(String::from_str("Alt3rSnap"));
        args.push(String::from_str("/SC"));
        args.push(String::from_str("ONLOGON"));
        args.push(String::from_str("/RL"));
        args.push(String::from_str("HIGHEST"));
        args.push(String::from_str("/TR"));
        args.push(run_key_value(exe));
        args.push(String::from_str("/F"));
    } else {
        args.push(String::from_str("/Delete"));
        args.push(String::from_str("/TN"));
        args.push(String::from_str("Alt3rSnap"));
        args.push(String::from_str("/F"));
    }
    args
}

/// Normal and elevated autostart stay mutually exclusive: turning either on
/// also removes the other when present.
pub proof fn lemma_toggles_exclusive(is_elevated: bool, normal_enabled: bool, elevated_enabled: bool)
    ensures
        !normal_enabled && elevated_enabled ==> normal_toggle_steps(normal_enabled, elevated_enabled).contains(
            AutostartStep::SetScheduledTask(false),
        ),
        is_elevated && !elevated_enabled && normal_enabled ==> elevated_toggle_steps(
            is_elevated,
            elevated_enabled,
            normal_enabled,
        ).contains(AutostartStep::SetRunKey(false)),
        !is_elevated ==> elevated_toggle_steps(is_elevated, elevated_enabled, normal_enabled) == seq![
            AutostartStep::RestartElevated,
        ],
{
    if !normal_enabled && elevated_enabled {
        assert(normal_toggle_steps(normal_enabled, elevated_enabled)[1] == AutostartStep::SetScheduledTask(false));
    }
    if is_elevated && !elevated_enabled && normal_enabled {
        assert(elevated_toggle_steps(is_elevated, elevated_enabled, normal_enabled)[1] == AutostartStep::SetRunKey(false));
    }
}

} // verus!
