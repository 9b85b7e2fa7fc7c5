//! The decode engine: pulls the packets of one track out of a container reader,
//! decodes them, and keeps the shape of the interleaved sample buffer they are
//! copied into and the cursor that walks over it. Seeking moves the reader and
//! resets the decoder and the cursor.
//!
//! The engine is generic over the reader `R` and the decoder `D`, which the
//! player instantiates with symphonia's format reader and decoder trait objects.
//! The samples themselves live in the player's buffer: the engine says when that
//! buffer is to be made anew, how large, and which position the cursor reads.
use vstd::prelude::*;

verus! {

#[verifier::external_type_specification]
#[verifier::external_body]
pub struct ExSymphoniaError(symphonia::core::errors::Error);

#[verifier::external_type_specification]
#[verifier::external_body]
pub struct ExPacket(symphonia::core::formats::Packet);

/// Number of audio frames the sample buffer is sized for.
pub const BUFFER_FRAMES: u64 = 4096;

/// Largest number of channels of a channel set: one bit of a 32-bit mask each.
pub const MAX_CHANNELS: usize = 32;

/// Largest number of samples (frames times channels) a sample buffer is made for.
pub const MAX_BUFFER_SAMPLES: u64 = 0xffff_ffff;

/// Sample rate and channels of a decoded signal: the channel set as its bit mask
/// and the number of channels in it.
#[derive(Debug, Clone, Copy, PartialEq, Eq, Structural)]
pub struct StreamSpec {
    pub rate: u32,
    pub channel_mask: u32,
    pub channels: usize,
}

/// A rational factor that turns a track's timestamps into seconds.
#[derive(Debug, Clone, Copy, PartialEq, Eq, Structural)]
pub struct TrackTimeBase {
    pub numer: u32,
    pub denom: u32,
}

/// The channel set of a track: its bit mask and the number of channels in it.
#[derive(Debug, Clone, Copy, PartialEq, Eq, Structural)]
pub struct ChannelSet {
    pub mask: u32,
    pub count: usize,
}

/// What the engine needs of a track's codec parameters.
#[derive(Debug, Clone, Copy, PartialEq, Eq, Structural)]
pub struct TrackParams {
    pub sample_rate: Option<u32>,
    pub channels: Option<ChannelSet>,
    pub time_base: Option<TrackTimeBase>,
}

/// One track of a container: its id, whether its codec is the null codec, and
/// its parameters.
#[derive(Debug, Clone, Copy, PartialEq, Eq, Structural)]
pub struct TrackInfo {
    pub id: u32,
    pub null_codec: bool,
    pub params: TrackParams,
}

/// The failures of the decode engine.
#[derive(Debug)]
pub enum EngineError {
    /// The track's parameters give no sample rate.
    MissingSampleRate,
    /// The track's parameters give no channels, or a channel set of none or of
    /// more than `MAX_CHANNELS`.
    MissingChannels,
    /// Reading or decoding failed in a way that ends the stream.
    DecodeFatal(symphonia::core::errors::Error),
    /// A decoded packet does not fit the sample buffer, or reports a channel set
    /// of none or of more than `MAX_CHANNELS`.
    FrameTooLarge,
    /// The reader could not seek.
    SeekIoFailed(symphonia::core::errors::Error),
    /// The track has no usable time base, so the position reached is unknown.
    SeekUnsupported,
}

/// How an error of the reader or decoder is handled.
#[derive(Debug, Clone, Copy, PartialEq, Eq, Structural)]
pub enum FaultKind {
    /// The reader ran into the end of the stream.
    EndOfStream,
    /// One packet held malformed data; the next one may decode.
    Malformed,
    /// Anything else.
    Other,
}

/// The shape of an interleaved sample buffer: a number of frames of a spec.
#[derive(Debug, Clone, Copy, PartialEq, Eq, Structural)]
pub struct BufferShape {
    pub frames: u64,
    pub spec: StreamSpec,
}

/// What one packet did to the engine.
#[derive(Debug, Clone, Copy, PartialEq, Eq, Structural)]
pub enum PacketStep {
    /// A packet of the track was decoded. Its samples are to be copied into the
    /// buffer, made anew first with the given shape where one is given.
    Filled(Option<BufferShape>),
    /// The packet belonged to another track, or held malformed data.
    Skipped,
    /// The stream has ended cleanly.
    EndOfStream,
}

/// What the engine does next after reading the reader or decoding a packet.
#[derive(Debug, Clone, Copy, PartialEq, Eq, Structural)]
pub enum StepVerdict {
    /// Decode the packet just read.
    Decode,
    /// Drop the packet and go on to the next one.
    Skip,
    /// The stream has ended cleanly.
    End,
    /// Stop with the error.
    Fatal,
}

/// The verdict on a read by an engine of track `track_id`: `Ok` with the track
/// id of the packet read, or `Err` with the kind of the failure. A packet of the
/// engine's track is decoded and one of another track dropped undecoded; the end
/// of the stream ends it cleanly and any other failure is fatal.
pub open spec fn read_verdict(track_id: u32, read: Result<u32, FaultKind>) -> StepVerdict {
    match read {
        Ok(id) => if id == track_id {
            StepVerdict::Decode
        } else {
            StepVerdict::Skip
        },
        Err(FaultKind::EndOfStream) => StepVerdict::End,
        Err(_) => StepVerdict::Fatal,
    }
}

/// The verdict on a packet that failed to decode: malformed data is skipped,
/// any other failure is fatal.
pub open spec fn decode_failure_verdict(kind: FaultKind) -> StepVerdict {
    match kind {
        FaultKind::Malformed => StepVerdict::Skip,
        _ => StepVerdict::Fatal,
    }
}

/// What an engine of track `track_id` does after a read of the reader.
pub fn after_read(track_id: u32, read: Result<u32, FaultKind>) -> (r: StepVerdict)
    ensures
        r == read_verdict(track_id, read),
{
    match read {
        Ok(id) => if id == track_id {
            StepVerdict::Decode
        } else {
            StepVerdict::Skip
        },
        Err(FaultKind::EndOfStream) => StepVerdict::End,
        Err(_) => StepVerdict::Fatal,
    }
}

/// What the engine does after a packet of its track failed to decode.
pub fn after_decode_failure(kind: FaultKind) -> (r: StepVerdict)
    ensures
        r == decode_failure_verdict(kind),
{
    match kind {
        FaultKind::Malformed => StepVerdict::Skip,
        _ => StepVerdict::Fatal,
    }
}

/// Relies on `FormatReader::next_packet`: the next packet of any track.
#[verifier::external_body]
fn read_packet<R: symphonia::core::formats::FormatReader + ?Sized>(reader: &mut Box<R>) -> (r: Result<symphonia::core::formats::Packet, symphonia::core::errors::Error>) {
    reader.next_packet()
}

/// Relies on `Packet::track_id`: the id of the track the packet belongs to.
pub assume_specification[ symphonia::core::formats::Packet::track_id ](p: &symphonia::core::formats::Packet) -> u32;

/// Relies on symphonia's `Error` variants and `std::io::Error::kind`: an I/O
/// error of kind `UnexpectedEof` marks the end of the stream, `DecodeError`
/// a malformed packet.
#[verifier::external_body]
fn fault_kind(e: &symphonia::core::errors::Error) -> (r: FaultKind) {
    match e {
        symphonia::core::errors::Error::IoError(io) if io.kind() == std::io::ErrorKind::UnexpectedEof => FaultKind::EndOfStream,
        symphonia::core::errors::Error::DecodeError(_) => FaultKind::Malformed,
        _ => FaultKind::Other,
    }
}

/// Relies on `Decoder::decode`: decodes the packet and reports the decoded
/// buffer's signal spec (its rate, and its channels as `Channels::bits` and
/// `Channels::count` give them) and its number of frames. The count is that of
/// the set bits of the 32-bit mask, so at most `MAX_CHANNELS`.
#[verifier::external_body]
fn decode_packet_into<D: symphonia::core::codecs::Decoder + ?Sized>(decoder: &mut Box<D>, p: &symphonia::core::formats::Packet) -> (r: Result<(StreamSpec, usize), symphonia::core::errors::Error>)
    ensures
        r matches Ok((spec, _)) ==> spec.channels <= MAX_CHANNELS,
{
    decoder.decode(p).map(|b| {
        let spec = *b.spec();
        (StreamSpec { rate: spec.rate, channel_mask: spec.channels.bits(), channels: spec.channels.count() }, b.frames())
    })
}

/// Relies on `Decoder::reset`: drops the decoder's state.
#[verifier::external_body]
fn reset_decoder<D: symphonia::core::codecs::Decoder + ?Sized>(decoder: &mut Box<D>) {
    decoder.reset()
}

/// Relies on `FormatReader::seek` in accurate mode to the time of `target`
/// (converted by `Time::from`) on the given track: the timestamp reached.
#[verifier::external_body]
fn seek_reader<R: symphonia::core::formats::FormatReader + ?Sized>(reader: &mut Box<R>, track_id: u32, target: std::time::Duration) -> (r: Result<u64, symphonia::core::errors::Error>) {
    reader.seek(
        symphonia::core::formats::SeekMode::Accurate,
        symphonia::core::formats::SeekTo::Time { time: symphonia::core::units::Time::from(target), track_id: Some(track_id) },
    ).map(|s| s.actual_ts)
}

/// The time that timestamp `ts` stands for under time base `tb`.
pub uninterp spec fn time_at_timestamp(tb: TrackTimeBase, ts: u64) -> std::time::Duration;

/// Relies on `TimeBase::new` and `TimeBase::calc_time`, both of which panic on
/// a zero numerator or denominator: the time of timestamp `ts`, a function of
/// the time base and the timestamp alone, converted by `Duration::from`.
#[verifier::external_body]
fn time_of_timestamp(tb: TrackTimeBase, ts: u64) -> (r: std::time::Duration)
    requires
        tb.numer > 0,
        tb.denom > 0,
    ensures
        r == time_at_timestamp(tb, ts),
{
    std::time::Duration::from(symphonia::core::units::TimeBase::new(tb.numer, tb.denom).calc_time(ts))
}

/// Picks the track to play: the first one with a real codec, or `None` when
/// the container has no audio track.
pub fn select_track(tracks: &Vec<TrackInfo>) -> (r: Option<usize>)
    ensures
        r matches Some(i) ==> i < tracks@.len() && !tracks@[i as int].null_codec
            && forall|j: int| 0 <= j < i ==> tracks@[j].null_codec,
        r is None <==> forall|j: int| 0 <= j < tracks@.len() ==> tracks@[j].null_codec,
{
    let mut i: usize = 0;
    while i < tracks.len()
        invariant
            i <= tracks@.len(),
            forall|j: int| 0 <= j < i ==> tracks@[j].null_codec,
        decreases tracks@.len() - i,
    {
        if !tracks[i].null_codec {
            return Some(i);
        }
        i = i + 1;
    }
    None
}

/// The spec of a track from its parameters, when they give a sample rate and
/// a channel set of one to `MAX_CHANNELS` channels.
pub open spec fn spec_of_params(p: TrackParams) -> Option<StreamSpec> {
    match (p.sample_rate, p.channels) {
        (Some(rate), Some(c)) if 1 <= c.count <= MAX_CHANNELS => Some(StreamSpec { rate, channel_mask: c.mask, channels: c.count }),
        _ => None,
    }
}

/// The decode engine over one track.
#[verifier::reject_recursive_types(R)]
#[verifier::reject_recursive_types(D)]
pub struct DecodeEngine<R: ?Sized, D: ?Sized> {
    reader: Box<R>,
    decoder: Box<D>,
    track_id: u32,
    spec: StreamSpec,
    time_base: Option<TrackTimeBase>,
    /// Frames the sample buffer was made for.
    frames: u64,
    /// Samples written to the buffer by the last fill.
    filled: usize,
    /// Read position of the cursor in the buffer.
    pos: usize,
}

/// Whether a spec's channel count is one the engine can buffer.
pub open spec fn channels_ok(spec: StreamSpec) -> bool {
    1 <= spec.channels <= MAX_CHANNELS
}

/// A time base that turns timestamps into times: neither part is zero.
pub open spec fn usable_time_base(tb: Option<TrackTimeBase>) -> bool {
    tb matches Some(t) && t.numer > 0 && t.denom > 0
}

impl<R: ?Sized, D: ?Sized> DecodeEngine<R, D> {
    /// The cursor never passes the end of what was written, the spec has a
    /// channel count the engine buffers, and the buffer stays within
    /// `MAX_BUFFER_SAMPLES` samples and holds what was written.
    pub closed spec fn wf(&self) -> bool {
        &&& self.pos <= self.filled
        &&& channels_ok(self.spec)
        &&& self.frames * self.spec.channels <= MAX_BUFFER_SAMPLES
        &&& self.filled <= self.frames * self.spec.channels
    }

    pub closed spec fn spec_track_id(&self) -> u32 {
        self.track_id
    }

    /// What a well-formed engine keeps: the cursor within what was written,
    /// which fits the buffer, and a channel count the engine can buffer.
    pub proof fn lemma_wf_cursor(&self)
        requires
            self.wf(),
        ensures
            self.spec_pos() <= self.spec_filled(),
            self.spec_filled() <= self.spec_frames() * self.spec_spec().channels,
            self.spec_frames() * self.spec_spec().channels <= MAX_BUFFER_SAMPLES,
            channels_ok(self.spec_spec()),
    {
    }

    pub closed spec fn spec_spec(&self) -> StreamSpec {
        self.spec
    }

    pub closed spec fn spec_time_base(&self) -> Option<TrackTimeBase> {
        self.time_base
    }

    /// Frames the sample buffer was made for.
    pub closed spec fn spec_frames(&self) -> nat {
        self.frames as nat
    }

    /// Samples written by the last fill.
    pub closed spec fn spec_filled(&self) -> nat {
        self.filled as nat
    }

    /// Position of the cursor.
    pub closed spec fn spec_pos(&self) -> nat {
        self.pos as nat
    }

    /// The cursor has walked over everything the buffer holds.
    pub open spec fn exhausted(&self) -> bool {
        self.spec_pos() == self.spec_filled()
    }

    /// The shape the sample buffer has.
    pub open spec fn spec_shape(&self) -> BufferShape {
        BufferShape { frames: self.spec_frames() as u64, spec: self.spec_spec() }
    }

    /// Everything but the reader and the decoder is as in `other`.
    pub open spec fn same_cursor(&self, other: &Self) -> bool {
        &&& self.spec_track_id() == other.spec_track_id()
        &&& self.spec_spec() == other.spec_spec()
        &&& self.spec_time_base() == other.spec_time_base()
        &&& self.spec_frames() == other.spec_frames()
        &&& self.spec_filled() == other.spec_filled()
        &&& self.spec_pos() == other.spec_pos()
    }

    pub fn channels(&self) -> (r: usize)
        ensures
            r == self.spec_spec().channels,
    {
        self.spec.channels
    }

    pub fn sample_rate(&self) -> (r: u32)
        ensures
            r == self.spec_spec().rate,
    {
        self.spec.rate
    }

    pub fn track_id(&self) -> (r: u32)
        ensures
            r == self.spec_track_id(),
    {
        self.track_id
    }

    /// The shape the sample buffer is to have.
    pub fn buffer_shape(&self) -> (r: BufferShape)
        ensures
            r == self.spec_shape(),
    {
        BufferShape { frames: self.frames, spec: self.spec }
    }

    /// The decoder, whose last decoded packet is copied into the sample buffer.
    pub fn decoder(&self) -> &Box<D> {
        &self.decoder
    }

    /// Samples left in the buffer before the next packet must be decoded.
    pub fn current_frame_len(&self) -> (r: usize)
        requires
            self.wf(),
        ensures
            r == self.spec_filled() - self.spec_pos(),
    {
        self.filled - self.pos
    }

    /// Advances the cursor: the buffer position of the next sample, or `None`
    /// when the buffer is exhausted and the next packet must be decoded.
    pub fn next_position(&mut self) -> (r: Option<usize>)
        requires
            old(self).wf(),
        ensures
            final(self).wf(),
            old(self).spec_pos() < old(self).spec_filled() ==> {
                &&& r == Some(old(self).spec_pos() as usize)
                &&& final(self).spec_pos() == old(self).spec_pos() + 1
            },
            old(self).exhausted() ==> r is None && final(self).spec_pos() == old(self).spec_pos(),
            final(self).spec_filled() == old(self).spec_filled(),
            final(self).spec_shape() == old(self).spec_shape(),
            final(self).spec_track_id() == old(self).spec_track_id(),
            final(self).spec_time_base() == old(self).spec_time_base(),
    {
        if self.pos < self.filled {
            let i = self.pos;
            self.pos = self.pos + 1;
            Some(i)
        } else {
            None
        }
    }

    /// The end of a seek whose reader reached timestamp `ts`: the cursor is
    /// exhausted, and the time reached is that of `ts` under the track's time
    /// base, or `SeekUnsupported` without a usable one.
    pub fn position_reached(&mut self, ts: u64) -> (r: Result<std::time::Duration, EngineError>)
        requires
            old(self).wf(),
        ensures
            final(self).wf(),
            final(self).exhausted(),
            final(self).spec_track_id() == old(self).spec_track_id(),
            final(self).spec_time_base() == old(self).spec_time_base(),
            final(self).spec_shape() == old(self).spec_shape(),
            final(self).spec_filled() == old(self).spec_filled(),
            usable_time_base(old(self).spec_time_base()) ==> r == Ok::<std::time::Duration, EngineError>(time_at_timestamp(old(self).spec_time_base()->Some_0, ts)),
            !usable_time_base(old(self).spec_time_base()) ==> r matches Err(EngineError::SeekUnsupported),
    {
        self.pos = self.filled;
        match self.time_base {
            Some(tb) if tb.numer > 0 && tb.denom > 0 => Ok(time_of_timestamp(tb, ts)),
            _ => Err(EngineError::SeekUnsupported),
        }
    }

    /// Takes in a packet that decoded to `frames` frames of `spec`. When the
    /// spec differs from the current one, the buffer is made anew for it at the
    /// same capacity: as many of its frames as the samples it held allow. The
    /// packet's frames must fit the buffer. On success the cursor starts over at
    /// the packet's samples.
    pub fn apply_decoded(&mut self, spec: StreamSpec, frames: usize) -> (r: Result<Option<BufferShape>, EngineError>)
        requires
            old(self).wf(),
        ensures
            final(self).wf(),
            final(self).spec_track_id() == old(self).spec_track_id(),
            final(self).spec_time_base() == old(self).spec_time_base(),
            ({
                let new_frames: int = if spec == old(self).spec_spec() {
                    old(self).spec_frames() as int
                } else {
                    (old(self).spec_frames() * old(self).spec_spec().channels) as int / (spec.channels as int)
                };
                if channels_ok(spec) && frames <= new_frames {
                    &&& r matches Ok(shape)
                    &&& final(self).spec_spec() == spec
                    &&& final(self).spec_frames() == new_frames
                    &&& final(self).spec_filled() == frames * spec.channels
                    &&& final(self).spec_pos() == 0
                    &&& shape == (if spec == old(self).spec_spec() {
                        None
                    } else {
                        Some(final(self).spec_shape())
                    })
                } else {
                    &&& r matches Err(EngineError::FrameTooLarge)
                    &&& final(self).same_cursor(old(self))
                }
            }),
            // the buffer never grows: a new spec keeps the samples it can hold
            final(self).spec_frames() * final(self).spec_spec().channels
                <= old(self).spec_frames() * old(self).spec_spec().channels,
    {
        if spec.channels < 1 || spec.channels > MAX_CHANNELS {
            return Err(EngineError::FrameTooLarge);
        }
        let changed = spec != self.spec;
        let capacity: u64 = self.frames * (self.spec.channels as u64);
        let new_frames: u64 = if changed {
            capacity / (spec.channels as u64)
        } else {
            self.frames
        };
        proof {
            let c: int = spec.channels as int;
            if changed {
                vstd::arithmetic::div_mod::lemma_fundamental_div_mod(capacity as int, c);
                assert(new_frames * c <= capacity) by (nonlinear_arith)
                    requires
                        c >= 1,
                        new_frames == capacity as int / c,
                        capacity == c * (capacity as int / c) + capacity as int % c,
                        0 <= capacity as int % c,
                ;
            }
        }
        if frames as u64 > new_frames {
            return Err(EngineError::FrameTooLarge);
        }
        proof {
            assert(frames * spec.channels <= new_frames * spec.channels) by (nonlinear_arith)
                requires
                    frames <= new_frames,
                    spec.channels >= 1,
            ;
            assert(MAX_BUFFER_SAMPLES <= usize::MAX);
        }
        let needed = frames * spec.channels;
        self.spec = spec;
        self.frames = new_frames;
        self.filled = needed;
        self.pos = 0;
        if changed {
            Ok(Some(BufferShape { frames: new_frames, spec }))
        } else {
            Ok(None)
        }
    }
}

impl<R: symphonia::core::formats::FormatReader + ?Sized, D: symphonia::core::codecs::Decoder + ?Sized> DecodeEngine<R, D> {
    /// An engine over track `track_id` of `reader`, decoded by `decoder`, with a
    /// buffer of `BUFFER_FRAMES` frames and an empty cursor. The track's
    /// parameters must give its sample rate and a channel set of one to
    /// `MAX_CHANNELS` channels.
    pub fn new(reader: Box<R>, decoder: Box<D>, track_id: u32, params: TrackParams) -> (r: Result<Self, EngineError>)
        ensures
            params.sample_rate is None ==> r matches Err(EngineError::MissingSampleRate),
            params.sample_rate is Some && spec_of_params(params) is None ==> r matches Err(EngineError::MissingChannels),
            spec_of_params(params) matches Some(spec) ==> r matches Ok(e) && {
                &&& e.wf()
                &&& e.spec_track_id() == track_id
                &&& e.spec_spec() == spec
                &&& e.spec_time_base() == params.time_base
                &&& e.spec_frames() == BUFFER_FRAMES
                &&& e.spec_filled() == 0
                &&& e.spec_pos() == 0
            },
    {
        let rate = match params.sample_rate {
            Some(rate) => rate,
            None => return Err(EngineError::MissingSampleRate),
        };
        let channels = match params.channels {
            Some(c) if 1 <= c.count && c.count <= MAX_CHANNELS => c,
            _ => return Err(EngineError::MissingChannels),
        };
        let spec = StreamSpec { rate, channel_mask: channels.mask, channels: channels.count };
        proof {
            let c: int = channels.count as int;
            assert(BUFFER_FRAMES * c <= MAX_BUFFER_SAMPLES) by (nonlinear_arith)
                requires
                    1 <= c <= 32,
            ;
        }
        Ok(DecodeEngine {
            reader,
            decoder,
            track_id,
            spec,
            time_base: params.time_base,
            frames: BUFFER_FRAMES,
            filled: 0,
            pos: 0,
        })
    }

    /// Reads one packet and acts on it: what follows the read is `after_read`'s
    /// verdict on the packet's track id or the failure's kind, and what follows
    /// a failed decode is `after_decode_failure`'s. A packet of another track is
    /// skipped undecoded, a malformed one skipped, the end of the stream reported
    /// as such, and any other failure of reading or decoding is fatal. A decoded
    /// packet is taken in as `apply_decoded` says.
    pub fn decode_packet(&mut self) -> (r: Result<PacketStep, EngineError>)
        requires
            old(self).wf(),
        ensures
            final(self).wf(),
            final(self).spec_track_id() == old(self).spec_track_id(),
            final(self).spec_time_base() == old(self).spec_time_base(),
            r matches Ok(PacketStep::Filled(shape)) ==> {
                &&& final(self).spec_pos() == 0
                &&& final(self).spec_filled() % (final(self).spec_spec().channels as nat) == 0
                &&& shape is None ==> final(self).spec_shape() == old(self).spec_shape()
                &&& shape matches Some(s) ==> s == final(self).spec_shape()
            },
            !(r is Ok && r->Ok_0 is Filled) ==> final(self).same_cursor(old(self)),
            r matches Err(e) ==> e is DecodeFatal || e is FrameTooLarge,
    {
        let packet = match read_packet(&mut self.reader) {
            Ok(p) => p,
            Err(e) => {
                return match after_read(self.track_id, Err(fault_kind(&e))) {
                    StepVerdict::End => Ok(PacketStep::EndOfStream),
                    StepVerdict::Skip => Ok(PacketStep::Skipped),
                    _ => Err(EngineError::DecodeFatal(e)),
                };
            },
        };
        match after_read(self.track_id, Ok(packet.track_id())) {
            StepVerdict::Decode => {},
            _ => return Ok(PacketStep::Skipped),
        }
        match decode_packet_into(&mut self.decoder, &packet) {
            Ok((spec, frames)) => {
                let shape = self.apply_decoded(spec, frames)?;
                proof {
                    vstd::arithmetic::div_mod::lemma_mod_multiples_basic(frames as int, spec.channels as int);
                }
                Ok(PacketStep::Filled(shape))
            },
            Err(e) => match after_decode_failure(fault_kind(&e)) {
                StepVerdict::Skip => Ok(PacketStep::Skipped),
                _ => Err(EngineError::DecodeFatal(e)),
            },
        }
    }

    /// Seeks accurately to `target` on the engine's track. The decoder is reset
    /// and the cursor exhausted, so that the next sample comes from a packet
    /// decoded at the new position; the time reached is computed from the
    /// timestamp the reader reports and the track's time base. Without a usable
    /// time base the seek fails with `SeekUnsupported` though the reader moved.
    pub fn try_seek(&mut self, target: std::time::Duration) -> (r: Result<std::time::Duration, EngineError>)
        requires
            old(self).wf(),
        ensures
            final(self).wf(),
            final(self).spec_track_id() == old(self).spec_track_id(),
            final(self).spec_time_base() == old(self).spec_time_base(),
            final(self).spec_shape() == old(self).spec_shape(),
            final(self).spec_filled() == old(self).spec_filled(),
            r matches Err(EngineError::SeekIoFailed(_)) ==> final(self).spec_pos() == old(self).spec_pos(),
            !(r matches Err(EngineError::SeekIoFailed(_))) ==> final(self).exhausted(),
            r is Ok || r matches Err(EngineError::SeekUnsupported) || r matches Err(EngineError::SeekIoFailed(_)),
            !usable_time_base(old(self).spec_time_base()) ==> r is Err,
            usable_time_base(old(self).spec_time_base()) ==> !(r matches Err(EngineError::SeekUnsupported)),
            r matches Ok(d) ==> exists|ts: u64| d == time_at_timestamp(old(self).spec_time_base()->Some_0, ts),
    {
        let actual_ts = match seek_reader(&mut self.reader, self.track_id, target) {
            Ok(ts) => ts,
            Err(e) => return Err(EngineError::SeekIoFailed(e)),
        };
        reset_decoder(&mut self.decoder);
        self.position_reached(actual_ts)
    }
}

} // verus!
