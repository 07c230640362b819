//! Plugins: external programs run over the staged packs, and the policy that
//! decides whether the build goes on after each of them.

use crate::config;
use vstd::prelude::*;

verus! {

/// A plugin as the program to start and the arguments to pass.
#[derive(Clone, Debug)]
pub struct ExecutablePlugin {
    /// Name of the plugin.
    pub name: Option<String>,
    /// Path or name of the executable.
    pub program: String,
    /// Arguments passed to the executable.
    pub args: Vec<String>,
    /// Whether a failure aborts the build.
    pub panic: bool,
}

/// The arguments of a plugin: its `run` target first when it is run `with`
/// an interpreter, then the options as one JSON argument, or the arguments
/// as given.
pub open spec fn plugin_args(value: config::Plugin) -> Seq<Seq<char>> {
    let head: Seq<Seq<char>> = if value.with is Some {
        seq![value.run@]
    } else {
        Seq::empty()
    };
    match value.args {
        config::PluginArgs::Options(json) => head.push(json@),
        config::PluginArgs::Args(a) => head + a@.map_values(|s: String| s@),
    }
}

impl ExecutablePlugin {
    pub open spec fn args_view(self) -> Seq<Seq<char>> {
        self.args@.map_values(|s: String| s@)
    }

    /// The plugin as configured.
    pub fn from_config(value: &config::Plugin) -> (r: ExecutablePlugin)
        ensures
            r.name == value.name,
            r.program@ == match value.with {
                Some(w) => w@,
                None => value.run@,
            },
            r.args_view() == plugin_args(*value),
            r.panic == value.panic,
    {
        let mut args: Vec<String> = Vec::new();
        if value.with.is_some() {
            args.push(value.run.clone());
        }
        let ghost head = args@.map_values(|s: String| s@);
        match &value.args {
            config::PluginArgs::Options(json) => {
                args.push(json.clone());
                assert(args@.map_values(|s: String| s@) =~= plugin_args(*value));
            },
            config::PluginArgs::Args(a) => {
                let mut i: usize = 0;
                while i < a.len()
                    invariant
                        i <= a@.len(),
                        args@.map_values(|s: String| s@) == head + a@.subrange(0, i as int).map_values(
                            |s: String| s@,
                        ),
                    decreases a@.len() - i,
                {
                    let ghost before = args@;
                    args.push(a[i].clone());
                    assert(a@.subrange(0, i + 1) =~= a@.subrange(0, i as int).push(a@[i as int]));
                    assert(a@.subrange(0, i + 1).map_values(|s: String| s@) =~= a@.subrange(
                        0,
                        i as int,
                    ).map_values(|s: String| s@).push(a@[i as int]@));
                    assert(args@.map_values(|s: String| s@) =~= before.map_values(|s: String| s@).push(
                        a@[i as int]@,
                    ));
                    assert(args@.map_values(|s: String| s@) =~= head + a@.subrange(0, i + 1).map_values(
                        |s: String| s@,
                    ));
                    i = i + 1;
                }
                assert(a@.subrange(0, i as int) =~= a@);
                assert(args@.map_values(|s: String| s@) =~= plugin_args(*value));
            },
        }
        let name = match &value.name {
            Some(n) => Some(n.clone()),
            None => None,
        };
        let program = match &value.with {
            Some(w) => w.clone(),
            None => value.run.clone(),
        };
        ExecutablePlugin { name, program, args, panic: value.panic }
    }

    /// The optional name of the plugin.
    pub fn name(&self) -> (r: Option<String>)
        ensures
            r == self.name,
    {
        match &self.name {
            Some(n) => Some(n.clone()),
            None => None,
        }
    }

    /// The name shown for the plugin: its name, or `<unnamed>`.
    pub fn display_name(&self) -> (r: String)
        ensures
            r@ == match self.name {
                Some(n) => n@,
                None => "<unnamed>"@,
            },
    {
        match &self.name {
            Some(n) => n.clone(),
            None => String::from_str("<unnamed>"),
        }
    }

    /// Whether a failure of the plugin aborts the build.
    pub fn panic(&self) -> (r: bool)
        ensures
            r == self.panic,
    {
        self.panic
    }
}

/// What came of handling one plugin.
#[derive(Clone, Copy, Debug, PartialEq, Eq, Structural)]
pub enum PluginEvent {
    /// Its filter evaluated to false: it was not run.
    Skipped,
    /// Its filter could not be evaluated.
    FilterError,
    /// It ran and exited successfully.
    Succeeded,
    /// It could not be started, or exited unsuccessfully.
    Failed,
}

/// What the build does after a plugin.
#[derive(Clone, Copy, Debug, PartialEq, Eq, Structural)]
pub enum PluginStep {
    /// Go on with the next plugin.
    Next,
    /// Abort the build.
    Abort,
}

/// A filter error always aborts; a failure aborts when the plugin asks for it.
pub open spec fn step_of(panic: bool, event: PluginEvent) -> PluginStep {
    match event {
        PluginEvent::FilterError => PluginStep::Abort,
        PluginEvent::Failed => if panic {
            PluginStep::Abort
        } else {
            PluginStep::Next
        },
        _ => PluginStep::Next,
    }
}

/// Decides what the build does after a plugin with the flag `panic` gave `event`.
pub fn plugin_step(panic: bool, event: PluginEvent) -> (r: PluginStep)
    ensures
        r == step_of(panic, event),
{
    match event {
        PluginEvent::FilterError => PluginStep::Abort,
        PluginEvent::Failed => if panic {
            PluginStep::Abort
        } else {
            PluginStep::Next
        },
        PluginEvent::Skipped | PluginEvent::Succeeded => PluginStep::Next,
    }
}

/// The progress of the plugin phase over `count` plugins, run in declared order.
#[derive(Clone, Copy, Debug, PartialEq, Eq, Structural)]
pub struct PluginPhase {
    /// The index of the plugin to handle next.
    pub next: usize,
    /// The number of plugins.
    pub count: usize,
    /// Whether a plugin aborted the build.
    pub aborted: bool,
}

impl PluginPhase {
    pub open spec fn wf(self) -> bool {
        self.next <= self.count
    }

    /// The plugin to handle now, if any.
    pub open spec fn current_spec(self) -> Option<usize> {
        if !self.aborted && self.next < self.count {
            Some(self.next)
        } else {
            None
        }
    }

    /// What handling the current plugin with the flag `panic` and the event
    /// `event` leaves.
    pub open spec fn advanced(self, panic: bool, event: PluginEvent) -> PluginPhase {
        match step_of(panic, event) {
            PluginStep::Abort => PluginPhase { aborted: true, ..self },
            PluginStep::Next => PluginPhase { next: (self.next + 1) as usize, ..self },
        }
    }

    /// The phase before the first of `count` plugins.
    pub fn new(count: usize) -> (r: PluginPhase)
        ensures
            r == (PluginPhase { next: 0, count, aborted: false }),
            r.wf(),
    {
        PluginPhase { next: 0, count, aborted: false }
    }

    /// The index of the plugin to handle now: none once every plugin was
    /// handled or one aborted the build.
    pub fn current(&self) -> (r: Option<usize>)
        ensures
            r == self.current_spec(),
    {
        if !self.aborted && self.next < self.count {
            Some(self.next)
        } else {
            None
        }
    }

    /// Records what came of the current plugin.
    pub fn advance(&mut self, panic: bool, event: PluginEvent) -> (r: PluginStep)
        requires
            old(self).wf(),
            old(self).current_spec() is Some,
        ensures
            r == step_of(panic, event),
            *final(self) == old(self).advanced(panic, event),
            final(self).wf(),
    {
        let step = plugin_step(panic, event);
        match step {
            PluginStep::Abort => self.aborted = true,
            PluginStep::Next => self.next = self.next + 1,
        }
        step
    }
}

/// A plugin with `panic` set that fails stops the phase: no later plugin is
/// handled. One without `panic` that fails lets the next plugin run.
pub proof fn lemma_abort_policy(s: PluginPhase, event: PluginEvent)
    requires
        s.wf(),
        s.current_spec() is Some,
    ensures
        event == PluginEvent::Failed ==> s.advanced(true, event).current_spec() is None,
        event == PluginEvent::Failed ==> s.advanced(false, event).current_spec() == (if s.next + 1 < s.count {
            Some((s.next + 1) as usize)
        } else {
            None
        }),
{
}

} // verus!
