//! The task document builder: renders an elevation request as the
//! task-scheduler XML document the platform expects.
//!
//! The principal element always carries the SYSTEM well-known identity and the
//! highest-available run level; no caller input reaches it.  The trigger
//! element is empty for tasks run on demand and a boot trigger for the
//! persistent workaround.  The arguments element only ever receives text that
//! is the image of XML escaping, so the document structure cannot be corrupted
//! or injected into by caller input.
use crate::xml::xml_escape;
use vstd::arithmetic::div_mod::lemma_div_is_strictly_smaller;
use vstd::arithmetic::div_mod::lemma_div_pos_is_pos;
use vstd::arithmetic::div_mod::lemma_mod_bound;
use vstd::prelude::*;

verus! {

/// When the platform may start a registered task on its own: never (the
/// caller invokes it once and deletes it), or at every boot.
#[derive(Clone, Copy, PartialEq, Eq, Structural)]
pub enum TaskTrigger {
    Immediate,
    OnBoot,
}

/// One privilege-elevation request: a command to run under the SYSTEM
/// account, packaged as a named, transient scheduled task.
pub struct ElevatedTaskSpec {
    /// Name the task is registered under; must be unique per operation, since
    /// registration overwrites and deletion is by name.
    pub task_name: String,
    /// Path or name of the executable the task runs.
    pub command: String,
    /// The action's argument string, already escaped for embedding in the
    /// document's arguments element.
    pub arguments: String,
    /// When the platform may start the task.
    pub trigger: TaskTrigger,
    /// Whether the task is hidden from a task-list UI.
    pub hidden: bool,
    /// The execution-time ceiling, in hours, that the platform enforces on
    /// the task itself.
    pub timeout_hours: u64,
    /// How long the caller sleeps after invoking the task before tearing it
    /// down; a heuristic, since no completion signal is observable.
    pub wait_millis: u64,
    /// The opaque success narrative reported when every step completes.
    pub success_message: String,
}

/// True when `s` is the image of XML escaping: exactly the strings that can
/// stand inside an element body without corrupting the document, and that a
/// parser reads back to a definite original.
pub open spec fn is_escaped(s: Seq<char>) -> bool {
    exists|t: Seq<char>| s == xml_escape(t)
}

/// The decimal digit character for one digit value.
pub open spec fn decimal_digit(d: int) -> char {
    if d == 0 {
        '0'
    } else if d == 1 {
        '1'
    } else if d == 2 {
        '2'
    } else if d == 3 {
        '3'
    } else if d == 4 {
        '4'
    } else if d == 5 {
        '5'
    } else if d == 6 {
        '6'
    } else if d == 7 {
        '7'
    } else if d == 8 {
        '8'
    } else {
        '9'
    }
}

/// The decimal rendering of a non-negative integer, most significant digit
/// first, no leading zeros except for zero itself.
pub open spec fn decimal_str(n: int) -> Seq<char>
    decreases n,
    when 0 <= n
    via decimal_str_decreases
{
    if n < 10 {
        seq![decimal_digit(n)]
    } else {
        decimal_str(n / 10).push(decimal_digit(n % 10))
    }
}

#[via_fn]
proof fn decimal_str_decreases(n: int) {
    if 10 <= n {
        lemma_div_is_strictly_smaller(n, 10);
        lemma_div_pos_is_pos(n, 10);
    }
}

/// The digit character for one digit value.
fn digit_char(d: u64) -> (c: char)
    requires
        d < 10,
    ensures
        c == decimal_digit(d as int),
{
    if d == 0 {
        '0'
    } else if d == 1 {
        '1'
    } else if d == 2 {
        '2'
    } else if d == 3 {
        '3'
    } else if d == 4 {
        '4'
    } else if d == 5 {
        '5'
    } else if d == 6 {
        '6'
    } else if d == 7 {
        '7'
    } else if d == 8 {
        '8'
    } else {
        '9'
    }
}

/// Appends the decimal rendering of `n` to `out`.
pub fn push_decimal(out: &mut String, n: u64)
    ensures
        final(out)@ == old(out)@ + decimal_str(n as int),
    decreases n,
{
    proof {
        lemma_mod_bound(n as int, 10);
    }
    if n < 10 {
        out.push(digit_char(n));
        proof {
            assert(old(out)@ + decimal_str(n as int) =~= old(out)@.push(decimal_digit(n as int)));
        }
    } else {
        proof {
            lemma_div_is_strictly_smaller(n as int, 10);
            lemma_div_pos_is_pos(n as int, 10);
        }
        push_decimal(out, n / 10);
        out.push(digit_char(n % 10));
        proof {
            assert(old(out)@ + decimal_str(n as int) =~= (old(out)@ + decimal_str(
                n as int / 10,
            )).push(decimal_digit(n as int % 10)));
        }
    }
}

/// The trigger element of the document: empty for on-demand tasks, a boot
/// trigger for the persistent workaround.
pub open spec fn triggers_element(trigger: TaskTrigger) -> Seq<char> {
    match trigger {
        TaskTrigger::Immediate => "<Triggers />"@,
        TaskTrigger::OnBoot => "<Triggers>\n    <BootTrigger>\n      <Enabled>true</Enabled>\n    </BootTrigger>\n  </Triggers>"@,
    }
}

/// "true" or "false", as the document spells booleans.
pub open spec fn bool_str(b: bool) -> Seq<char> {
    if b {
        "true"@
    } else {
        "false"@
    }
}

/// The complete task-definition document for one elevation request.  The
/// principal is the fixed SYSTEM identity at the highest available run level;
/// only the trigger, visibility, time ceiling, command and arguments vary.
pub open spec fn task_document(
    trigger: TaskTrigger,
    hidden: bool,
    timeout_hours: int,
    command: Seq<char>,
    arguments: Seq<char>,
) -> Seq<char> {
    "<?xml version=\"1.0\" encoding=\"UTF-16\"?>\n<Task version=\"1.2\" xmlns=\"http://schemas.microsoft.com/windows/2004/02/mit/task\">\n  <RegistrationInfo>\n    <Author>VPN Manager App</Author>\n  </RegistrationInfo>\n  "@
        + triggers_element(trigger)
        + "\n  <Principals>\n    <Principal id=\"Author\">\n      <UserId>S-1-5-18</UserId>\n      <RunLevel>HighestAvailable</RunLevel>\n    </Principal>\n  </Principals>\n  <Settings>\n    <MultipleInstancesPolicy>IgnoreNew</MultipleInstancesPolicy>\n    <DisallowStartIfOnBatteries>false</DisallowStartIfOnBatteries>\n    <StopIfGoingOnBatteries>false</StopIfGoingOnBatteries>\n    <AllowHardTerminate>true</AllowHardTerminate>\n    <StartWhenAvailable>false</StartWhenAvailable>\n    <RunOnlyIfNetworkAvailable>false</RunOnlyIfNetworkAvailable>\n    <AllowStartOnDemand>true</AllowStartOnDemand>\n    <Enabled>true</Enabled>\n    <Hidden>"@
        + bool_str(hidden)
        + "</Hidden>\n    <RunOnlyIfIdle>false</RunOnlyIfIdle>\n    <WakeToRun>false</WakeToRun>\n    <ExecutionTimeLimit>PT"@
        + decimal_str(timeout_hours) + "H</ExecutionTimeLimit>\n    <Priority>4</Priority>\n  </Settings>\n  <Actions Context=\"Author\">\n    <Exec>\n      <Command>"@
        + command + "</Command>\n      <Arguments>"@ + arguments
        + "</Arguments>\n    </Exec>\n  </Actions>\n</Task>"@
}

/// Renders the task-definition document for `spec`.  The arguments must
/// already be in escaped form; the document then embeds them verbatim and an
/// XML parser reads back exactly the argument value they escape.
pub fn build_task_document(spec: &ElevatedTaskSpec) -> (r: String)
    requires
        is_escaped(spec.arguments@),
    ensures
        r@ == task_document(
            spec.trigger,
            spec.hidden,
            spec.timeout_hours as int,
            spec.command@,
            spec.arguments@,
        ),
{
    let mut r = String::from_str(
        "<?xml version=\"1.0\" encoding=\"UTF-16\"?>\n<Task version=\"1.2\" xmlns=\"http://schemas.microsoft.com/windows/2004/02/mit/task\">\n  <RegistrationInfo>\n    <Author>VPN Manager App</Author>\n  </RegistrationInfo>\n  ",
    );
    match spec.trigger {
        TaskTrigger::Immediate => r.append("<Triggers />"),
        TaskTrigger::OnBoot => r.append(
            "<Triggers>\n    <BootTrigger>\n      <Enabled>true</Enabled>\n    </BootTrigger>\n  </Triggers>",
        ),
    }
    r.append(
        "\n  <Principals>\n    <Principal id=\"Author\">\n      <UserId>S-1-5-18</UserId>\n      <RunLevel>HighestAvailable</RunLevel>\n    </Principal>\n  </Principals>\n  <Settings>\n    <MultipleInstancesPolicy>IgnoreNew</MultipleInstancesPolicy>\n    <DisallowStartIfOnBatteries>false</DisallowStartIfOnBatteries>\n    <StopIfGoingOnBatteries>false</StopIfGoingOnBatteries>\n    <AllowHardTerminate>true</AllowHardTerminate>\n    <StartWhenAvailable>false</StartWhenAvailable>\n    <RunOnlyIfNetworkAvailable>false</RunOnlyIfNetworkAvailable>\n    <AllowStartOnDemand>true</AllowStartOnDemand>\n    <Enabled>true</Enabled>\n    <Hidden>",
    );
    if spec.hidden {
        r.append("true");
    } else {
        r.append("false");
    }
    r.append(
        "</Hidden>\n    <RunOnlyIfIdle>false</RunOnlyIfIdle>\n    <WakeToRun>false</WakeToRun>\n    <ExecutionTimeLimit>PT",
    );
    push_decimal(&mut r, spec.timeout_hours);
    r.append(
        "H</ExecutionTimeLimit>\n    <Priority>4</Priority>\n  </Settings>\n  <Actions Context=\"Author\">\n    <Exec>\n      <Command>",
    );
    r.append(spec.command.as_str());
    r.append("</Command>\n      <Arguments>");
    r.append(spec.arguments.as_str());
    r.append("</Arguments>\n    </Exec>\n  </Actions>\n</Task>");
    r
}

} // verus!
