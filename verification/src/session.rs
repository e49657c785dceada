//! What a host keeps between events: the loaded emulator, if any, and the
//! log it shows. The host performs the outside work (opening a file,
//! keeping time, painting) and hands each outcome in as an [`Event`].

use vstd::prelude::*;
use crate::diagnostics::{
    dialog_closed_message, dialog_closed_text, fault_message, fault_text, load_failed_message,
    load_failed_text, loaded_message, loaded_text, odd_size_message, odd_size_text, texts,
};
use crate::emulator::Emulator;
use crate::machine::{loaded, Fault, Machine, MAX_ROM_LEN};

verus! {

/// Something that happened at the host.
#[derive(Debug)]
pub enum Event {
    /// The user asked to load a program image.
    LoadRequested,
    /// The file dialog ended: with the bytes and the name of the chosen
    /// file, or without a choice.
    RomOpened(Option<(Vec<u8>, String)>),
    /// The user asked to empty the log.
    ClearLog,
    /// It is time for one instruction cycle.
    Tick,
}

/// What the host is to do after an event.
#[derive(Clone, Copy, Debug, PartialEq, Eq, Structural)]
pub enum Action {
    /// Nothing.
    Idle,
    /// Show the file dialog, then hand in [`Event::RomOpened`].
    PickFile,
}

/// The session as a mathematical value.
pub ghost struct SessionState {
    /// The machine, if a program is loaded.
    pub machine: Option<Machine>,
    /// The fault that stopped the machine, if any.
    pub fault: Option<Fault>,
    /// The text of each line of the log.
    pub log: Seq<Seq<char>>,
}

impl SessionState {
    /// Whether instruction cycles are due: a program is loaded and no fault
    /// has stopped it.
    pub open spec fn running(self) -> bool {
        self.machine is Some && self.fault is None
    }

    /// The session after a file dialog that ended with the image `rom` from
    /// the file `name`. An image that fits replaces the machine and the log;
    /// one that does not is reported and changes nothing else.
    pub open spec fn load(self, rom: Seq<u8>, name: Seq<char>) -> SessionState {
        if rom.len() <= MAX_ROM_LEN {
            SessionState {
                machine: Some(loaded(rom)),
                fault: None,
                log: if rom.len() % 2 == 1 {
                    seq![loaded_text(name), odd_size_text(rom.len())]
                } else {
                    seq![loaded_text(name)]
                },
            }
        } else {
            SessionState { log: self.log.push(load_failed_text(name)), ..self }
        }
    }

    /// The session after one due instruction cycle. A fault is reported and
    /// stops the machine where it is.
    pub open spec fn tick(self) -> SessionState {
        if self.running() {
            let machine = self.machine->0;
            match machine.fault() {
                Some(fault) => SessionState {
                    fault: Some(fault),
                    log: self.log.push(fault_text(fault)),
                    ..self
                },
                None => SessionState {
                    machine: Some(machine.step()),
                    log: self.log + machine.diagnostics(),
                    ..self
                },
            }
        } else {
            self
        }
    }

    /// The session after `event`.
    pub open spec fn after(self, event: Event) -> SessionState {
        match event {
            Event::LoadRequested => self,
            Event::RomOpened(None) => SessionState {
                log: self.log.push(dialog_closed_text()),
                ..self
            },
            Event::RomOpened(Some((rom, name))) => self.load(rom@, name@),
            Event::ClearLog => SessionState { log: Seq::empty(), ..self },
            Event::Tick => self.tick(),
        }
    }
}

/// What the host is to do after `event`.
pub open spec fn action_for(event: Event) -> Action {
    match event {
        Event::LoadRequested => Action::PickFile,
        _ => Action::Idle,
    }
}

/// The emulator and the log of one host.
#[derive(Debug)]
pub struct Session {
    emulator: Option<Emulator>,
    fault: Option<Fault>,
    logs: Vec<String>,
}

impl View for Session {
    type V = SessionState;

    closed spec fn view(&self) -> SessionState {
        SessionState {
            machine: match self.emulator {
                Some(emulator) => Some(emulator@),
                None => None,
            },
            fault: self.fault,
            log: texts(self.logs@),
        }
    }
}

impl Default for Session {
    /// A session with no program loaded and an empty log.
    fn default() -> (session: Session)
        ensures
            session@ == (SessionState { machine: None, fault: None, log: Seq::empty() }),
    {
        Session::new()
    }
}

impl Session {
    /// A session with no program loaded and an empty log.
    pub fn new() -> (session: Session)
        ensures
            session@ == (SessionState { machine: None, fault: None, log: Seq::empty() }),
    {
        let session = Session { emulator: None, fault: None, logs: Vec::new() };
        assert(session@.log =~= Seq::empty());
        session
    }

    /// Whether the host is to keep time for instruction cycles.
    pub fn is_running(&self) -> (running: bool)
        ensures
            running == self@.running(),
    {
        self.emulator.is_some() && self.fault.is_none()
    }

    /// The loaded emulator, if any.
    pub fn emulator(&self) -> (emulator: Option<&Emulator>)
        ensures
            match emulator {
                Some(emulator) => self@.machine == Some(emulator@),
                None => self@.machine is None,
            },
    {
        self.emulator.as_ref()
    }

    /// The fault that stopped the machine, if any.
    pub fn fault(&self) -> (fault: Option<Fault>)
        ensures
            fault == self@.fault,
    {
        self.fault
    }

    /// The lines of the log, the oldest first.
    pub fn logs(&self) -> (logs: &Vec<String>)
        ensures
            texts(logs@) == self@.log,
    {
        &self.logs
    }

    /// Takes in one event and says what the host is to do next.
    pub fn update(&mut self, event: Event) -> (action: Action)
        ensures
            final(self)@ == old(self)@.after(event),
            action == action_for(event),
    {
        match event {
            Event::LoadRequested => Action::PickFile,
            Event::RomOpened(None) => {
                let message = dialog_closed_message();
                self.logs.push(message);
                assert(self@.log =~= old(self)@.log.push(dialog_closed_text()));
                Action::Idle
            },
            Event::RomOpened(Some((rom, name))) => {
                let len = rom.len();
                let ghost image = rom@;
                match Emulator::new(rom) {
                    Ok(emulator) => {
                        self.emulator = Some(emulator);
                        self.fault = None;
                        self.logs.clear();
                        self.logs.push(loaded_message(name.as_str()));
                        if len % 2 == 1 {
                            self.logs.push(odd_size_message(len));
                        }
                        assert(self@.log =~= old(self)@.load(image, name@).log);
                    },
                    Err(_) => {
                        self.logs.push(load_failed_message(name.as_str()));
                        assert(self@.log =~= old(self)@.load(image, name@).log);
                    },
                }
                Action::Idle
            },
            Event::ClearLog => {
                self.logs.clear();
                assert(self@.log =~= Seq::empty());
                Action::Idle
            },
            Event::Tick => {
                self.step();
                Action::Idle
            },
        }
    }

    /// Runs one instruction cycle if one is due.
    fn step(&mut self)
        ensures
            final(self)@ == old(self)@.tick(),
    {
        if self.fault.is_some() {
            return ;
        }
        match &mut self.emulator {
            Some(emulator) => {
                let ghost before = self.logs@;
                let ghost machine = emulator@;
                match emulator.tick(&mut self.logs) {
                    Ok(()) => {
                        assert(texts(self.logs@) =~= texts(before) + machine.diagnostics()) by {
                            assert(self.logs@ =~= self.logs@.take(before.len() as int)
                                + self.logs@.skip(before.len() as int));
                        }
                    },
                    Err(fault) => {
                        self.fault = Some(fault);
                        self.logs.push(fault_message(fault));
                        assert(texts(self.logs@) =~= texts(before).push(fault_text(fault)));
                    },
                }
            },
            None => {},
        }
    }
}

} // verus!
