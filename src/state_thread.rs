use vstd::prelude::*;

verus! {

/// Severity of a reported lifecycle failure.
#[derive(Debug, Clone, Copy, PartialEq, Eq, Structural)]
pub enum LogLevel {
    Debug,
    Info,
    Warn,
    Error,
}

/// A recoverable failure, with its severity and a message for the log.
#[derive(Debug)]
pub struct ErroHandle {
    pub level: LogLevel,
    pub message: String,
}

/// Ownership of the input events: `Running` while the background task polls them, `Stopped`
/// while the core does. Each start opens a new generation; a background task keeps polling
/// only while the flag is up and its generation is the current one.
#[derive(Debug)]
pub struct EventThread {
    event_thread_can_run: bool,
    generation: u64,
}

pub struct EventThreadView {
    pub running: bool,
    pub generation: u64,
}

impl View for EventThread {
    type V = EventThreadView;

    closed spec fn view(&self) -> EventThreadView {
        EventThreadView { running: self.event_thread_can_run, generation: self.generation }
    }
}

/// The generation after `g`, wrapping at the top of the range.
pub open spec fn next_generation(g: u64) -> u64 {
    if g == u64::MAX {
        0
    } else {
        (g + 1) as u64
    }
}

pub open spec fn stop_spec(t: EventThreadView) -> EventThreadView {
    EventThreadView { running: false, generation: t.generation }
}

/// The state after a start request, and whether it succeeded: it fails, changing nothing,
/// while a background task already runs.
pub open spec fn resume_spec(t: EventThreadView) -> (EventThreadView, bool) {
    if t.running {
        (t, false)
    } else {
        (EventThreadView { running: true, generation: next_generation(t.generation) }, true)
    }
}

/// Whether the background task of generation `generation` goes on polling.
pub open spec fn keeps_running_spec(t: EventThreadView, generation: u64) -> bool {
    t.running && t.generation == generation
}

impl EventThread {
    /// Nobody polls yet.
    pub fn new() -> (r: EventThread)
        ensures
            r@ == (EventThreadView { running: false, generation: 0 }),
    {
        EventThread { event_thread_can_run: false, generation: 0 }
    }

    /// Hands the events to the core. Safe to call when already stopped, or never started; the
    /// background task sees it at its next wake and ends.
    pub fn stop(&mut self)
        ensures
            final(self)@ == stop_spec(old(self)@),
    {
        self.event_thread_can_run = false;
    }

    /// Takes the events back for a new background task. While one runs, the request fails
    /// with a warning and changes nothing, so no second task starts.
    pub fn resume(&mut self) -> (r: Result<(), ErroHandle>)
        ensures
            final(self)@ == resume_spec(old(self)@).0,
            r is Ok <==> resume_spec(old(self)@).1,
            r matches Err(e) ==> e.level == LogLevel::Warn,
    {
        if self.event_thread_can_run {
            return Err(
                ErroHandle {
                    level: LogLevel::Warn,
                    message: "the gamepad event thread is already running".to_owned(),
                },
            );
        }
        self.generation = if self.generation == u64::MAX {
            0
        } else {
            self.generation + 1
        };
        self.event_thread_can_run = true;
        Ok(())
    }

    /// What a caller does on finding the run flag's lock broken: it stops, so that no task
    /// goes on from a state nobody can vouch for, and reports that the thread cannot start.
    pub fn recover(&mut self) -> (r: ErroHandle)
        ensures
            final(self)@ == stop_spec(old(self)@),
            r.level == LogLevel::Error,
    {
        self.event_thread_can_run = false;
        ErroHandle {
            level: LogLevel::Error,
            message: "could not start the gamepad event thread".to_owned(),
        }
    }

    pub fn is_running(&self) -> (r: bool)
        ensures
            r == self@.running,
    {
        self.event_thread_can_run
    }

    /// The generation of the latest start.
    pub fn generation(&self) -> (r: u64)
        ensures
            r == self@.generation,
    {
        self.generation
    }

    /// Whether the background task started as `generation` goes on polling.
    pub fn keeps_running(&self, generation: u64) -> (r: bool)
        ensures
            r == keeps_running_spec(self@, generation),
    {
        self.event_thread_can_run && self.generation == generation
    }
}

/// Stopping twice is stopping once.
pub proof fn lemma_stop_is_idempotent(t: EventThreadView)
    ensures
        stop_spec(stop_spec(t)) == stop_spec(t),
{
}

/// A start while a task runs fails and leaves the state as it was, so a second start right
/// after a first one never opens a second task.
pub proof fn lemma_second_resume_is_refused(t: EventThreadView)
    ensures
        resume_spec(t).0.running,
        !resume_spec(resume_spec(t).0).1,
        resume_spec(resume_spec(t).0).0 == resume_spec(t).0,
{
}

/// After a stop and a new start, the task of the old generation no longer polls: at any time
/// at most one generation polls.
pub proof fn lemma_restart_retires_old_task(t: EventThreadView, g1: u64, g2: u64)
    ensures
        !keeps_running_spec(resume_spec(stop_spec(t)).0, t.generation),
        keeps_running_spec(t, g1) && keeps_running_spec(t, g2) ==> g1 == g2,
{
}

} // verus!
