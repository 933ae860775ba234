//! The kernel's screens (processes) and the decisions of the switcher
//! that moves between them.

use vstd::prelude::*;

pub mod info;
pub mod monitor;
pub mod system;

verus! {

/// The screens: the game, the machine state, the log and the cartridge menu.
#[derive(Clone, Copy, PartialEq, Eq, Structural, Debug)]
pub enum ProcessMode {
    Game,
    Info,
    Log,
    System,
}

impl ProcessMode {
    /// The next screen in turn: game, info, log and back to the game. The
    /// cartridge menu is not in the cycle: from it, the next screen is the
    /// game.
    pub open spec fn spec_shift(self) -> ProcessMode {
        match self {
            ProcessMode::Game => ProcessMode::Info,
            ProcessMode::Info => ProcessMode::Log,
            ProcessMode::Log => ProcessMode::Game,
            ProcessMode::System => ProcessMode::Game,
        }
    }

    pub fn shift(&self) -> (r: ProcessMode)
        ensures
            r == self.spec_shift(),
    {
        match self {
            ProcessMode::Game => ProcessMode::Info,
            ProcessMode::Info => ProcessMode::Log,
            ProcessMode::Log => ProcessMode::Game,
            ProcessMode::System => ProcessMode::Game,
        }
    }

    /// The screen's slot in the process table.
    pub open spec fn spec_index(self) -> usize {
        match self {
            ProcessMode::Game => 0,
            ProcessMode::Info => 1,
            ProcessMode::Log => 2,
            ProcessMode::System => 3,
        }
    }

    pub fn index(&self) -> (r: usize)
        ensures
            r == self.spec_index(),
    {
        match self {
            ProcessMode::Game => 0,
            ProcessMode::Info => 1,
            ProcessMode::Log => 2,
            ProcessMode::System => 3,
        }
    }
}

/// Tab cycles game, info and log: each shift moves to another screen and
/// three shifts come back; from the cartridge menu a shift goes to the game.
pub proof fn lemma_shift_cycle(m: ProcessMode)
    ensures
        m != ProcessMode::System ==> m.spec_shift() != m && m.spec_shift().spec_shift() != m
            && m.spec_shift().spec_shift().spec_shift() == m,
        m.spec_shift() != ProcessMode::System,
        ProcessMode::System.spec_shift() == ProcessMode::Game,
{
}

/// The end of the game's stack.
pub const GAME_STACK_BOTTOM: u64 = 0x5000_0000;
/// The end of the info screen's stack.
pub const INFO_STACK_BOTTOM: u64 = 0x680_0000;
/// The end of the log screen's stack.
pub const LOG_STACK_BOTTOM: u64 = 0x780_0000;
/// The end of the main stack, on which the cartridge menu runs.
pub const MAIN_STACK_BOTTOM: u64 = 0x4000_0000;

/// The stack end of each slot of the process table.
pub open spec fn spec_stack_bottom(slot: int) -> u64 {
    if slot == 0 {
        GAME_STACK_BOTTOM
    } else if slot == 1 {
        INFO_STACK_BOTTOM
    } else if slot == 2 {
        LOG_STACK_BOTTOM
    } else {
        MAIN_STACK_BOTTOM
    }
}

/// What an interrupt saves of a running process and restores on return.
#[derive(Clone, Copy, PartialEq, Eq, Structural, Debug)]
pub struct StackFrame {
    pub instruction_pointer: u64,
    pub code_segment: u64,
    pub cpu_flags: u64,
    pub stack_pointer: u64,
    pub stack_segment: u64,
}

/// A slot of the process table: where its stack ends, where it starts, and
/// the frame it was interrupted in, if it ran before.
#[derive(Clone, Copy, Debug)]
pub struct ProcessInfo {
    pub stack_bottom: u64,
    pub entry_point: u64,
    pub saved_state: Option<StackFrame>,
}

impl ProcessInfo {
    pub fn new(stack_bottom: u64, entry_point: u64) -> (r: ProcessInfo)
        ensures
            r == (ProcessInfo { stack_bottom, entry_point, saved_state: None }),
    {
        ProcessInfo { stack_bottom, entry_point, saved_state: None }
    }

    /// A frame that starts the process from its entry point on an empty
    /// stack, with the segments and flags of `current`.
    pub open spec fn spec_fresh_frame(self, current: StackFrame) -> StackFrame {
        StackFrame {
            instruction_pointer: self.entry_point,
            code_segment: current.code_segment,
            cpu_flags: current.cpu_flags,
            stack_pointer: self.stack_bottom,
            stack_segment: current.stack_segment,
        }
    }

    pub fn fresh_frame(&self, current: &StackFrame) -> (r: StackFrame)
        ensures
            r == self.spec_fresh_frame(*current),
    {
        StackFrame {
            instruction_pointer: self.entry_point,
            code_segment: current.code_segment,
            cpu_flags: current.cpu_flags,
            stack_pointer: self.stack_bottom,
            stack_segment: current.stack_segment,
        }
    }
}

/// A switch the switcher made: from slot `from` to slot `to`, whose
/// switched handler the caller runs, then loading `frame`.
#[derive(Clone, Copy, PartialEq, Eq, Structural, Debug)]
pub struct ProcSwitch {
    pub from: usize,
    pub to: usize,
    pub reset: bool,
    pub frame: StackFrame,
}

/// The process table, the screen on show, and whether switching is locked
/// (safe mode).
pub struct ProcessSwitcher {
    pub processes: Vec<ProcessInfo>,
    pub current_proc: ProcessMode,
    pub safe_mode: bool,
}

/// The table after leaving slot `from` in frame `current` for slot `to`:
/// `from` keeps `current`, and a restart forgets the state of `to`.
pub open spec fn spec_table_after(table: Seq<ProcessInfo>, from: int, to: int, current: StackFrame, reset: bool) -> Seq<ProcessInfo> {
    let saved = table.update(from, ProcessInfo { saved_state: Some(current), ..table[from] });
    if reset {
        saved.update(to, ProcessInfo { saved_state: None, ..saved[to] })
    } else {
        saved
    }
}

/// The frame loaded on entering slot `to` of `table` (the table after the
/// state of the slot left was saved): its saved frame, or a fresh start.
pub open spec fn spec_frame_to_load(table: Seq<ProcessInfo>, to: int, current: StackFrame) -> StackFrame {
    match table[to].saved_state {
        Some(s) => s,
        None => table[to].spec_fresh_frame(current),
    }
}

impl ProcessSwitcher {
    pub open spec fn wf(&self) -> bool {
        self.processes@.len() == 4
    }

    /// Starts on the game screen, unlocked, with no process run yet: the
    /// game, info, log and menu slots with their stack ends and the entry
    /// points given in that order.
    pub fn new(entry_points: [u64; 4]) -> (r: ProcessSwitcher)
        ensures
            r.wf(),
            r.current_proc == ProcessMode::Game,
            !r.safe_mode,
            forall|i: int| 0 <= i < 4 ==> (#[trigger] r.processes@[i]) == (ProcessInfo {
                stack_bottom: spec_stack_bottom(i),
                entry_point: entry_points@[i],
                saved_state: None,
            }),
    {
        let mut processes: Vec<ProcessInfo> = Vec::new();
        processes.push(ProcessInfo::new(GAME_STACK_BOTTOM, entry_points[0]));
        processes.push(ProcessInfo::new(INFO_STACK_BOTTOM, entry_points[1]));
        processes.push(ProcessInfo::new(LOG_STACK_BOTTOM, entry_points[2]));
        processes.push(ProcessInfo::new(MAIN_STACK_BOTTOM, entry_points[3]));
        ProcessSwitcher { processes, current_proc: ProcessMode::Game, safe_mode: false }
    }

    /// Asking for screen `new_proc` while the running one is interrupted in
    /// `current_frame`: nothing happens in safe mode, nor when it is already
    /// on show and no restart is asked. Otherwise the running screen keeps
    /// `current_frame`, a restart forgets the saved state of `new_proc`, and
    /// the frame to load is the saved one of `new_proc` or a fresh start.
    pub fn switch_proc(&mut self, new_proc: ProcessMode, current_frame: StackFrame, reset_main: bool) -> (r: Option<ProcSwitch>)
        requires
            old(self).wf(),
        ensures
            final(self).wf(),
            (old(self).safe_mode || (old(self).current_proc == new_proc && !reset_main)) ==> r is None && *final(self) == *old(self),
            !(old(self).safe_mode || (old(self).current_proc == new_proc && !reset_main)) ==> {
                let from = old(self).current_proc.spec_index() as int;
                let to = new_proc.spec_index() as int;
                let table = spec_table_after(old(self).processes@, from, to, current_frame, reset_main);
                &&& r == Some(ProcSwitch { from: from as usize, to: to as usize, reset: reset_main,
                        frame: spec_frame_to_load(table, to, current_frame) })
                &&& final(self).processes@ == table
                &&& final(self).current_proc == new_proc
                &&& final(self).safe_mode == old(self).safe_mode
            },
    {
        if self.safe_mode {
            return None;
        }
        let from = self.current_proc.index();
        let to = new_proc.index();
        if from == to && !reset_main {
            return None;
        }
        let left = self.processes[from];
        self.processes.set(from, ProcessInfo { saved_state: Some(current_frame), ..left });
        if reset_main {
            let entered = self.processes[to];
            self.processes.set(to, ProcessInfo { saved_state: None, ..entered });
        }
        let target = self.processes[to];
        let frame = match target.saved_state {
            Some(s) => s,
            None => target.fresh_frame(&current_frame),
        };
        self.current_proc = new_proc;
        Some(ProcSwitch { from, to, reset: reset_main, frame })
    }

    /// Switches to the next screen in turn.
    pub fn shift_proc(&mut self, current_frame: StackFrame) -> (r: Option<ProcSwitch>)
        requires
            old(self).wf(),
        ensures
            final(self).wf(),
            old(self).safe_mode ==> r is None && *final(self) == *old(self),
            !old(self).safe_mode ==> {
                let from = old(self).current_proc.spec_index() as int;
                let to = old(self).current_proc.spec_shift().spec_index() as int;
                let table = spec_table_after(old(self).processes@, from, to, current_frame, false);
                &&& r == Some(ProcSwitch { from: from as usize, to: to as usize, reset: false,
                        frame: spec_frame_to_load(table, to, current_frame) })
                &&& final(self).processes@ == table
                &&& final(self).current_proc == old(self).current_proc.spec_shift()
                &&& !final(self).safe_mode
            },
    {
        let next = self.current_proc.shift();
        self.switch_proc(next, current_frame, false)
    }

    /// Restarts the game from its entry point. The game's slot is first given
    /// a fresh start frame, even in safe mode, where nothing else happens.
    pub fn reset_main(&mut self, current_frame: StackFrame) -> (r: Option<ProcSwitch>)
        requires
            old(self).wf(),
        ensures
            final(self).wf(),
            final(self).current_proc == (if old(self).safe_mode { old(self).current_proc } else { ProcessMode::Game }),
            final(self).safe_mode == old(self).safe_mode,
            old(self).safe_mode ==> r is None && final(self).processes@ == old(self).processes@.update(0,
                ProcessInfo { saved_state: Some(old(self).processes@[0].spec_fresh_frame(current_frame)), ..old(self).processes@[0] }),
            !old(self).safe_mode ==> {
                let from = old(self).current_proc.spec_index() as int;
                let table = spec_table_after(old(self).processes@, from, 0, current_frame, true);
                &&& r == Some(ProcSwitch { from: from as usize, to: 0, reset: true,
                        frame: old(self).processes@[0].spec_fresh_frame(current_frame) })
                &&& final(self).processes@ == table
            },
    {
        let game = self.processes[0];
        let start = game.fresh_frame(&current_frame);
        self.processes.set(0, ProcessInfo { saved_state: Some(start), ..game });
        self.switch_proc(ProcessMode::Game, current_frame, true)
    }

    /// Shows the log and locks switching.
    pub fn enter_safe_mode(&mut self, current_frame: StackFrame) -> (r: Option<ProcSwitch>)
        requires
            old(self).wf(),
        ensures
            final(self).wf(),
            final(self).safe_mode,
            old(self).safe_mode ==> r is None && final(self).current_proc == old(self).current_proc
                && final(self).processes@ == old(self).processes@,
            !old(self).safe_mode ==> final(self).current_proc == ProcessMode::Log,
            old(self).current_proc == ProcessMode::Log ==> r is None && final(self).processes@ == old(self).processes@,
            !old(self).safe_mode && old(self).current_proc != ProcessMode::Log ==> {
                let from = old(self).current_proc.spec_index() as int;
                let table = spec_table_after(old(self).processes@, from, 2, current_frame, false);
                &&& r == Some(ProcSwitch { from: from as usize, to: 2, reset: false,
                        frame: spec_frame_to_load(table, 2, current_frame) })
                &&& final(self).processes@ == table
            },
    {
        let r = self.switch_proc(ProcessMode::Log, current_frame, false);
        self.safe_mode = true;
        r
    }

    pub fn mode(&self) -> (r: ProcessMode)
        ensures
            r == self.current_proc,
    {
        self.current_proc
    }
}

impl From<ProcessMode> for usize {
    fn from(mode: ProcessMode) -> (r: usize) {
        mode.index()
    }
}

impl vstd::std_specs::convert::FromSpecImpl<ProcessMode> for usize {
    open spec fn obeys_from_spec() -> bool {
        true
    }

    open spec fn from_spec(mode: ProcessMode) -> usize {
        mode.spec_index()
    }
}

} // verus!
