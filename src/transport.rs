//! The transport controller: which track is loaded, whether it plays, and the
//! events each command produces. The thread that owns the output sink feeds it
//! what it observed of the sink and what came of loading or seeking, and carries
//! out the sink operations it asks for.
use vstd::prelude::*;

verus! {

#[verifier::external_type_specification]
#[verifier::external_body]
pub struct ExPathBuf(std::path::PathBuf);

/// Status reported back to the caller of the transport.
#[derive(Debug)]
pub enum AudioResponse {
    /// Loading the file at the path failed, with a diagnostic.
    LoadError(std::path::PathBuf, String),
    PlaybackStarted,
    PlaybackPaused,
    PlaybackStopped,
    /// The loaded track was played to its end.
    PlaybackEnded,
    /// The playlist index now loaded and the track's duration, where known.
    CurrentlyPlaying(Option<usize>, Option<std::time::Duration>),
    /// A seek finished at the given position.
    SeekCompleted(std::time::Duration),
}

/// An operation on the output sink, carried out in order by the owner of the sink.
#[derive(Debug, Clone, Copy, PartialEq, Eq, Structural)]
pub enum SinkOp {
    /// Drop everything queued.
    Stop,
    /// Queue the source that was just opened.
    Append,
    Play,
    Pause,
}

/// What the sink reported at the start of a cycle.
#[derive(Debug, Clone, Copy, PartialEq, Eq, Structural)]
pub struct SinkStatus {
    pub empty: bool,
    pub paused: bool,
}

/// The controller's state.
#[derive(Debug, Clone, Copy, PartialEq, Eq, Structural)]
pub enum PlayState {
    Idle,
    Playing,
    Paused,
}

/// The sink operations and the events, in order, that answer one input.
pub struct Reaction {
    pub ops: Vec<SinkOp>,
    pub events: Vec<AudioResponse>,
}

/// The track currently loaded: its file and its index in the caller's playlist.
pub struct Session {
    pub path: std::path::PathBuf,
    pub index: usize,
}

/// The transport controller. It holds at most one session; with none it is idle.
pub struct Transport {
    session: Option<Session>,
    paused: bool,
}

impl Transport {
    /// The index of the loaded track, if any.
    pub closed spec fn spec_index(&self) -> Option<usize> {
        match self.session {
            Some(s) => Some(s.index),
            None => None,
        }
    }

    /// The path of the loaded track, if any.
    pub closed spec fn spec_path(&self) -> Option<std::path::PathBuf> {
        match self.session {
            Some(s) => Some(s.path),
            None => None,
        }
    }

    /// Idle without a session; otherwise playing or paused.
    pub closed spec fn spec_state(&self) -> PlayState {
        if self.session is None {
            PlayState::Idle
        } else if self.paused {
            PlayState::Paused
        } else {
            PlayState::Playing
        }
    }

    /// The controller is idle exactly when it holds no session, and a session
    /// has both a path and an index.
    pub proof fn lemma_idle_iff_no_session(&self)
        ensures
            (self.spec_state() == PlayState::Idle) <==> self.spec_index() is None,
            self.spec_index() is None <==> self.spec_path() is None,
    {
    }

    /// A controller with nothing loaded.
    pub fn new() -> (r: Transport)
        ensures
            r.spec_state() == PlayState::Idle,
            r.spec_index() is None,
            r.spec_path() is None,
    {
        Transport { session: None, paused: false }
    }

    pub fn state(&self) -> (r: PlayState)
        ensures
            r == self.spec_state(),
    {
        if self.session.is_none() {
            PlayState::Idle
        } else if self.paused {
            PlayState::Paused
        } else {
            PlayState::Playing
        }
    }

    pub fn current_index(&self) -> (r: Option<usize>)
        ensures
            r == self.spec_index(),
    {
        match &self.session {
            Some(s) => Some(s.index),
            None => None,
        }
    }

    /// The file to reopen for a seek, or `None` when nothing is loaded and the
    /// seek is to be ignored.
    pub fn seek_path(&self) -> (r: Option<&std::path::PathBuf>)
        ensures
            r matches Some(p) ==> self.spec_path() == Some(*p),
            r is None <==> self.spec_path() is None,
    {
        match &self.session {
            Some(s) => Some(&s.path),
            None => None,
        }
    }

    /// The check made on every cycle before any command: a session whose sink
    /// has run empty has ended. It is then cleared and `PlaybackEnded` is reported.
    pub fn end_of_track(&mut self, sink: SinkStatus) -> (r: Option<AudioResponse>)
        ensures
            sink.empty && old(self).spec_index() is Some ==> {
                &&& r == Some(AudioResponse::PlaybackEnded)
                &&& final(self).spec_state() == PlayState::Idle
                &&& final(self).spec_index() is None
                &&& final(self).spec_path() is None
            },
            !(sink.empty && old(self).spec_index() is Some) ==> {
                &&& r is None
                &&& *final(self) == *old(self)
            },
    {
        if sink.empty && self.session.is_some() {
            self.session = None;
            self.paused = false;
            Some(AudioResponse::PlaybackEnded)
        } else {
            None
        }
    }

    /// `Play`: resumes a paused, non-empty sink; otherwise does nothing.
    pub fn play(&mut self, sink: SinkStatus) -> (r: Reaction)
        ensures
            !sink.empty && sink.paused ==> {
                &&& r.ops@ == seq![SinkOp::Play]
                &&& r.events@ == seq![AudioResponse::PlaybackStarted]
                &&& final(self).spec_index() == old(self).spec_index()
                &&& final(self).spec_path() == old(self).spec_path()
                &&& old(self).spec_index() is Some ==> final(self).spec_state() == PlayState::Playing
            },
            !(!sink.empty && sink.paused) ==> {
                &&& r.ops@.len() == 0
                &&& r.events@.len() == 0
                &&& *final(self) == *old(self)
            },
    {
        let mut ops: Vec<SinkOp> = Vec::new();
        let mut events: Vec<AudioResponse> = Vec::new();
        if !sink.empty && sink.paused {
            self.paused = false;
            ops.push(SinkOp::Play);
            events.push(AudioResponse::PlaybackStarted);
        }
        Reaction { ops, events }
    }

    /// `Pause`: pauses a playing, non-empty sink; otherwise does nothing.
    pub fn pause(&mut self, sink: SinkStatus) -> (r: Reaction)
        ensures
            !sink.paused && !sink.empty ==> {
                &&& r.ops@ == seq![SinkOp::Pause]
                &&& r.events@ == seq![AudioResponse::PlaybackPaused]
                &&& final(self).spec_index() == old(self).spec_index()
                &&& final(self).spec_path() == old(self).spec_path()
                &&& old(self).spec_index() is Some ==> final(self).spec_state() == PlayState::Paused
            },
            !(!sink.paused && !sink.empty) ==> {
                &&& r.ops@.len() == 0
                &&& r.events@.len() == 0
                &&& *final(self) == *old(self)
            },
    {
        let mut ops: Vec<SinkOp> = Vec::new();
        let mut events: Vec<AudioResponse> = Vec::new();
        if !sink.paused && !sink.empty {
            self.paused = true;
            ops.push(SinkOp::Pause);
            events.push(AudioResponse::PlaybackPaused);
        }
        Reaction { ops, events }
    }

    /// `Stop`: always allowed. Clears what the sink holds and the session, and
    /// reports `PlaybackStopped`.
    pub fn stop(&mut self, sink: SinkStatus) -> (r: Reaction)
        ensures
            r.ops@ == (if sink.empty { Seq::<SinkOp>::empty() } else { seq![SinkOp::Stop] }),
            r.events@ == seq![AudioResponse::PlaybackStopped],
            final(self).spec_state() == PlayState::Idle,
            final(self).spec_index() is None,
            final(self).spec_path() is None,
    {
        let mut ops: Vec<SinkOp> = Vec::new();
        let mut events: Vec<AudioResponse> = Vec::new();
        if !sink.empty {
            ops.push(SinkOp::Stop);
        }
        self.session = None;
        self.paused = false;
        events.push(AudioResponse::PlaybackStopped);
        Reaction { ops, events }
    }

    /// What precedes reloading, for `PlayTrack` and `Seek` alike: whatever the
    /// sink still holds is dropped.
    pub fn before_reload(&self, sink: SinkStatus) -> (r: Vec<SinkOp>)
        ensures
            r@ == (if sink.empty { Seq::<SinkOp>::empty() } else { seq![SinkOp::Stop] }),
    {
        let mut ops: Vec<SinkOp> = Vec::new();
        if !sink.empty {
            ops.push(SinkOp::Stop);
        }
        ops
    }

    /// The end of `PlayTrack(path, index)`, given what came of opening the file:
    /// the track's duration (where its tags give one), or the diagnostic of the
    /// failure. A track that opened becomes the session and plays; one that did
    /// not leaves the controller idle.
    pub fn track_loaded(
        &mut self,
        path: std::path::PathBuf,
        index: usize,
        outcome: Result<Option<std::time::Duration>, String>,
    ) -> (r: Reaction)
        ensures
            outcome matches Ok(duration) ==> {
                &&& r.ops@ == seq![SinkOp::Append, SinkOp::Play]
                &&& r.events@ == seq![
                    AudioResponse::PlaybackStarted,
                    AudioResponse::CurrentlyPlaying(Some(index), duration),
                ]
                &&& final(self).spec_state() == PlayState::Playing
                &&& final(self).spec_index() == Some(index)
                &&& final(self).spec_path() == Some(path)
            },
            outcome matches Err(msg) ==> {
                &&& r.ops@.len() == 0
                &&& r.events@ == seq![
                    AudioResponse::LoadError(path, msg),
                    AudioResponse::CurrentlyPlaying(None, None),
                ]
                &&& final(self).spec_state() == PlayState::Idle
                &&& final(self).spec_index() is None
                &&& final(self).spec_path() is None
            },
    {
        let mut ops: Vec<SinkOp> = Vec::new();
        let mut events: Vec<AudioResponse> = Vec::new();
        match outcome {
            Ok(duration) => {
                self.session = Some(Session { path, index });
                self.paused = false;
                ops.push(SinkOp::Append);
                ops.push(SinkOp::Play);
                events.push(AudioResponse::PlaybackStarted);
                events.push(AudioResponse::CurrentlyPlaying(Some(index), duration));
            },
            Err(msg) => {
                self.session = None;
                self.paused = false;
                events.push(AudioResponse::LoadError(path, msg));
                events.push(AudioResponse::CurrentlyPlaying(None, None));
            },
        }
        Reaction { ops, events }
    }

    /// The end of a `Seek` on the loaded track, given the position reached in the
    /// reopened stream or the failure of reopening or seeking. A seek that
    /// reached a position resumes playback there; a failed one ends the session.
    pub fn seek_finished(&mut self, outcome: Result<std::time::Duration, String>) -> (r: Reaction)
        requires
            old(self).spec_index() is Some,
        ensures
            outcome matches Ok(actual) ==> {
                &&& r.ops@ == seq![SinkOp::Append, SinkOp::Play]
                &&& r.events@ == seq![AudioResponse::SeekCompleted(actual)]
                &&& final(self).spec_state() == PlayState::Playing
                &&& final(self).spec_index() == old(self).spec_index()
                &&& final(self).spec_path() == old(self).spec_path()
            },
            outcome is Err ==> {
                &&& r.ops@.len() == 0
                &&& r.events@ == seq![AudioResponse::PlaybackStopped]
                &&& final(self).spec_state() == PlayState::Idle
                &&& final(self).spec_index() is None
                &&& final(self).spec_path() is None
            },
    {
        let mut ops: Vec<SinkOp> = Vec::new();
        let mut events: Vec<AudioResponse> = Vec::new();
        match outcome {
            Ok(actual) => {
                self.paused = false;
                ops.push(SinkOp::Append);
                ops.push(SinkOp::Play);
                events.push(AudioResponse::SeekCompleted(actual));
            },
            Err(_) => {
                self.session = None;
                self.paused = false;
                events.push(AudioResponse::PlaybackStopped);
            },
        }
        Reaction { ops, events }
    }
}

} // verus!
