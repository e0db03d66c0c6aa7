//! A snapshot of the running processes.

use crate::util::consts::EXE_ENHANCED;
use crate::util::consts::EXE_LEGACY;
use crate::util::decimal::decimal;
use crate::util::decimal::to_decimal;
use vstd::prelude::*;
use vstd::string::StringExecFns;

verus! {

/// What a [`Process`] stands for.
pub struct ProcessView {
    /// Process id.
    pub pid: u32,
    /// File name of the executable.
    pub name: Seq<char>,
    /// Full path of the executable, where it could be read.
    pub exe: Option<Seq<char>>,
}

impl ProcessView {
    /// Whether the process runs one of the game's two editions.
    pub open spec fn is_game(self) -> bool {
        self.name == EXE_ENHANCED@ || self.name == EXE_LEGACY@
    }
}

/// One running process.
#[derive(Debug)]
pub struct Process {
    pid: u32,
    name: String,
    exe: Option<String>,
}

impl View for Process {
    type V = ProcessView;

    closed spec fn view(&self) -> ProcessView {
        ProcessView {
            pid: self.pid,
            name: self.name@,
            exe: match self.exe {
                Some(path) => Some(path@),
                None => None,
            },
        }
    }
}

impl Process {
    /// A process as the operating system reported it.
    pub fn new(pid: u32, name: String, exe: Option<String>) -> (p: Process)
        ensures
            p@ == (ProcessView {
                pid,
                name: name@,
                exe: match exe {
                    Some(path) => Some(path@),
                    None => None,
                },
            }),
    {
        Process { pid, name, exe }
    }

    /// Process id.
    pub fn pid(&self) -> (pid: u32)
        ensures
            pid == self@.pid,
    {
        self.pid
    }

    /// File name of the executable.
    pub fn name(&self) -> (name: &str)
        ensures
            name@ == self@.name,
    {
        self.name.as_str()
    }

    /// Full path of the executable, where it could be read.
    pub fn exe(&self) -> (exe: Option<&str>)
        ensures
            match exe {
                Some(path) => self@.exe == Some(path@),
                None => self@.exe is None,
            },
    {
        match &self.exe {
            Some(path) => Some(path.as_str()),
            None => None,
        }
    }

    /// The command that ends the process by force: the program, then its
    /// arguments.
    pub fn kill(&self) -> (command: Vec<String>)
        ensures
            command@.len() == 4,
            command@[0]@ == "taskkill.exe"@,
            command@[1]@ == "/F"@,
            command@[2]@ == "/PID"@,
            command@[3]@ == decimal(self@.pid as nat),
    {
        let mut command: Vec<String> = Vec::new();
        command.push(String::from_str("taskkill.exe"));
        command.push(String::from_str("/F"));
        command.push(String::from_str("/PID"));
        command.push(to_decimal(self.pid as u64));
        command
    }

    /// Whether the process runs one of the game's two editions.
    pub fn is_game(&self) -> (b: bool)
        ensures
            b == self@.is_game(),
    {
        let enhanced = String::from_str(EXE_ENHANCED);
        let legacy = String::from_str(EXE_LEGACY);
        self.name == enhanced || self.name == legacy
    }
}

/// The first process of `processes` that runs the game, if any does.
pub open spec fn first_game(processes: Seq<ProcessView>) -> Option<ProcessView>
    decreases processes.len(),
{
    if processes.len() == 0 {
        None
    } else if processes[0].is_game() {
        Some(processes[0])
    } else {
        first_game(processes.drop_first())
    }
}

/// The ids of the processes of `processes` that run the game, in order.
pub open spec fn game_pids(processes: Seq<ProcessView>) -> Seq<u32>
    decreases processes.len(),
{
    if processes.len() == 0 {
        Seq::empty()
    } else if processes.last().is_game() {
        game_pids(processes.drop_last()).push(processes.last().pid)
    } else {
        game_pids(processes.drop_last())
    }
}

/// The processes that were running when the snapshot was last refreshed.
#[derive(Debug)]
pub struct SystemInfo {
    processes: Vec<Process>,
}

impl View for SystemInfo {
    type V = Seq<ProcessView>;

    closed spec fn view(&self) -> Seq<ProcessView> {
        self.processes@.map_values(|p: Process| p@)
    }
}

impl Default for SystemInfo {
    /// A snapshot without any process.
    fn default() -> (info: SystemInfo)
        ensures
            info@ == Seq::<ProcessView>::empty(),
    {
        SystemInfo { processes: Vec::new() }
    }
}

impl SystemInfo {
    /// Replaces the snapshot by a newer list of processes.
    pub fn refresh(&mut self, processes: Vec<Process>)
        ensures
            final(self)@ == processes@.map_values(|p: Process| p@),
    {
        self.processes = processes;
    }

    /// The processes of the snapshot.
    pub fn processes(&self) -> (processes: &Vec<Process>)
        ensures
            processes@.map_values(|p: Process| p@) == self@,
    {
        &self.processes
    }

    /// The first process in the snapshot that runs the game, if any does.
    pub fn find_game(&self) -> (game: Option<&Process>)
        ensures
            match game {
                Some(process) => first_game(self@) == Some(process@),
                None => first_game(self@) is None,
            },
    {
        let mut index: usize = 0;
        assert(self@.skip(0) == self@);
        while index < self.processes.len()
            invariant
                index <= self.processes.len(),
                first_game(self@) == first_game(self@.skip(index as int)),
            decreases self.processes.len() - index,
        {
            let process = &self.processes[index];
            assert(self@.skip(index as int)[0] == process@);
            assert(self@.skip(index as int).drop_first() == self@.skip(index + 1));
            if process.is_game() {
                return Some(process);
            }
            index += 1;
        }
        None
    }

    /// The full path of the game's executable: that of the first process in
    /// the snapshot that runs the game. `None` where no process runs the game,
    /// or where the path of that process could not be read.
    pub fn get_game_exe_path(&self) -> (path: Option<&str>)
        ensures
            match path {
                Some(path) => first_game(self@) matches Some(p) && p.exe == Some(path@),
                None => first_game(self@) matches Some(p) ==> p.exe is None,
            },
    {
        match self.find_game() {
            Some(process) => process.exe(),
            None => None,
        }
    }
}

} // verus!
