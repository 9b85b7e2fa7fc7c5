//! Playlist navigation: repeat modes and the choice of the next track to play.
use vstd::prelude::*;
use rand::Rng;

verus! {

/// How playback continues once a track has finished.
#[derive(Debug, Clone, Copy, PartialEq, Eq, Structural)]
pub enum RepeatMode {
    /// Stop at the end of the playlist.
    Off,
    /// Wrap around to the start of the playlist.
    Playlist,
    /// Replay the current track.
    Track,
}

/// The mode that follows `m` in the cycle Off -> Playlist -> Track -> Off.
pub open spec fn next_mode(m: RepeatMode) -> RepeatMode {
    match m {
        RepeatMode::Off => RepeatMode::Playlist,
        RepeatMode::Playlist => RepeatMode::Track,
        RepeatMode::Track => RepeatMode::Off,
    }
}

impl RepeatMode {
    /// The next mode of the cycle, as a toggle button steps through them.
    pub fn next(&self) -> (r: RepeatMode)
        ensures
            r == next_mode(*self),
    {
        match self {
            RepeatMode::Off => RepeatMode::Playlist,
            RepeatMode::Playlist => RepeatMode::Track,
            RepeatMode::Track => RepeatMode::Off,
        }
    }

    /// The label shown for this mode on its button and in status messages.
    pub fn icon(&self) -> (r: &'static str)
        ensures
            *self == RepeatMode::Off ==> r@ == "🔁 Off"@,
            *self == RepeatMode::Playlist ==> r@ == "🔁 All"@,
            *self == RepeatMode::Track ==> r@ == "🔁¹ One"@,
    {
        match self {
            RepeatMode::Off => "🔁 Off",
            RepeatMode::Playlist => "🔁 All",
            RepeatMode::Track => "🔁¹ One",
        }
    }
}

/// Cycling the mode three times comes back to where it started.
pub proof fn lemma_mode_cycle(m: RepeatMode)
    ensures
        next_mode(next_mode(next_mode(m))) == m,
        next_mode(m) != m,
{
}

/// The index that sequential playback moves to from `current` in a playlist of
/// `len` tracks: the following track, else the first one when the whole playlist
/// repeats, else none. Without a current track, playback starts over only when
/// the playlist repeats.
pub open spec fn sequential_next(len: nat, current: Option<usize>, repeat: RepeatMode) -> Option<int> {
    let cur: int = match current {
        Some(i) => i as int,
        None => len as int,
    };
    if len == 0 {
        None
    } else if cur + 1 < len {
        Some(cur + 1)
    } else if repeat == RepeatMode::Playlist {
        Some(0)
    } else {
        None
    }
}

/// Sequential successor of `current` in a playlist of `len` tracks, or `None`
/// when the playlist has finished.
pub fn next_index(len: usize, current: Option<usize>, repeat: RepeatMode) -> (r: Option<usize>)
    ensures
        r matches Some(i) ==> sequential_next(len as nat, current, repeat) == Some(i as int),
        r is None ==> sequential_next(len as nat, current, repeat) is None,
        r matches Some(i) ==> i < len,
{
    if len == 0 {
        return None;
    }
    let cur: usize = match current {
        Some(i) => i,
        None => len,
    };
    if cur < len - 1 {
        Some(cur + 1)
    } else if repeat == RepeatMode::Playlist {
        Some(0)
    } else {
        None
    }
}

/// The index before `current`, wrapping to the last track from the first one or
/// when there is no current track.
pub open spec fn previous_of(len: nat, current: Option<usize>) -> Option<int> {
    if len == 0 {
        None
    } else {
        match current {
            Some(i) if i > 0 => Some(i - 1),
            _ => Some(len - 1),
        }
    }
}

/// Predecessor of `current` in a playlist of `len` tracks.
pub fn previous_index(len: usize, current: Option<usize>) -> (r: Option<usize>)
    ensures
        r matches Some(i) ==> previous_of(len as nat, current) == Some(i as int),
        r is None ==> previous_of(len as nat, current) is None,
{
    if len == 0 {
        return None;
    }
    match current {
        Some(i) if i > 0 => Some(i - 1),
        _ => Some(len - 1),
    }
}

/// The track a shuffled playlist moves to, given a first draw `first` below `len`
/// and, where that draw repeats the current track, a second draw `offset` in
/// `1..len` that shifts it cyclically.
pub open spec fn shuffled_pick(len: nat, current: Option<usize>, first: nat, offset: nat) -> nat {
    if len > 1 && current == Some(first as usize) {
        (first + offset) % len
    } else {
        first
    }
}

/// Shuffle choice from two draws: the first is kept unless it repeats the current
/// track in a playlist of more than one, in which case it is shifted by `offset`.
pub fn pick_shuffled(len: usize, current: Option<usize>, first: usize, offset: usize) -> (r: usize)
    requires
        first < len,
        len > 1 ==> 1 <= offset < len,
    ensures
        r as nat == shuffled_pick(len as nat, current, first as nat, offset as nat),
        r < len,
        len > 1 ==> current != Some(r),
{
    if len > 1 && current == Some(first) {
        let r = ((first as u128 + offset as u128) % (len as u128)) as usize;
        proof {
            let s = first as int + offset as int;
            let l = len as int;
            if s >= l {
                vstd::arithmetic::div_mod::lemma_mod_add_multiples_vanish(s - l, l);
                vstd::arithmetic::div_mod::lemma_small_mod((s - l) as nat, l as nat);
            } else {
                vstd::arithmetic::div_mod::lemma_small_mod(s as nat, l as nat);
            }
        }
        r
    } else {
        first
    }
}

/// Relies on rand's `Rng::gen_range` over the thread-local generator: a value
/// drawn uniformly from `low..high`, which must not be empty.
#[verifier::external_body]
fn draw_in(low: usize, high: usize) -> (r: usize)
    requires
        low < high,
    ensures
        low <= r < high,
{
    rand::thread_rng().gen_range(low..high)
}

/// A random track of a playlist of `len` tracks that differs from `current`
/// whenever there is another one to choose; `None` on an empty playlist.
pub fn random_index(len: usize, current: Option<usize>) -> (r: Option<usize>)
    ensures
        r is None <==> len == 0,
        r matches Some(i) ==> i < len,
        r matches Some(i) ==> (len > 1 ==> current != Some(i)),
{
    if len == 0 {
        return None;
    }
    let first = draw_in(0, len);
    let offset = if len > 1 && current == Some(first) {
        draw_in(1, len)
    } else {
        1
    };
    Some(pick_shuffled(len, current, first, offset))
}

/// The track that follows `current`: a random one when shuffling, the
/// sequential successor otherwise.
pub fn next_track(len: usize, current: Option<usize>, shuffle: bool, repeat: RepeatMode) -> (r: Option<usize>)
    ensures
        !shuffle ==> (r matches Some(i) ==> sequential_next(len as nat, current, repeat) == Some(i as int)),
        !shuffle ==> (r is None ==> sequential_next(len as nat, current, repeat) is None),
        shuffle ==> (r is None <==> len == 0),
        r matches Some(i) ==> i < len,
        shuffle && len > 1 ==> (r matches Some(i) ==> current != Some(i)),
{
    if shuffle {
        random_index(len, current)
    } else {
        next_index(len, current, repeat)
    }
}

/// What follows the natural end of track `last` in a playlist of `len` tracks,
/// where the sequential case is decided: the same track again when it repeats,
/// the next one in a repeating playlist or while one follows, else none.
pub open spec fn sequential_after_end(len: nat, last: Option<usize>, repeat: RepeatMode) -> Option<int> {
    match last {
        None => None,
        Some(i) => match repeat {
            RepeatMode::Track => if i < len { Some(i as int) } else { None },
            RepeatMode::Playlist => sequential_next(len, last, repeat),
            RepeatMode::Off => if i + 1 >= len { None } else { Some(i + 1) },
        },
    }
}

/// The track to play once track `last` has played to its end, or `None` when
/// playback stops there. A repeated track is played again; otherwise the next
/// track is chosen as `next_track` does, except that a playlist that does not
/// repeat ends after its last track.
pub fn track_after_end(len: usize, last: Option<usize>, shuffle: bool, repeat: RepeatMode) -> (r: Option<usize>)
    ensures
        r matches Some(i) ==> i < len,
        last is None ==> r is None,
        repeat == RepeatMode::Track ==> r == (match last {
            Some(i) => if i < len { Some(i) } else { None },
            None => None,
        }),
        !shuffle || repeat == RepeatMode::Track ==> (r matches Some(i) ==> sequential_after_end(len as nat, last, repeat) == Some(i as int)),
        !shuffle || repeat == RepeatMode::Track ==> (r is None ==> sequential_after_end(len as nat, last, repeat) is None),
        shuffle && repeat != RepeatMode::Track && last is Some ==> (r is None <==> len == 0),
        shuffle && repeat != RepeatMode::Track && len > 1 ==> (r matches Some(i) ==> last != Some(i)),
{
    let i = match last {
        Some(i) => i,
        None => return None,
    };
    match repeat {
        RepeatMode::Track => if i < len {
            Some(i)
        } else {
            None
        },
        RepeatMode::Playlist => next_track(len, last, shuffle, repeat),
        RepeatMode::Off => {
            if shuffle {
                random_index(len, last)
            } else if len == 0 || i >= len - 1 {
                None
            } else {
                next_track(len, last, shuffle, repeat)
            }
        },
    }
}

/// Where the current track's index goes when the track at `removed` leaves the
/// playlist: it is gone if it was that track, moves down by one if it came
/// after it, and stays otherwise.
pub fn index_after_removal(current: Option<usize>, removed: usize) -> (r: Option<usize>)
    ensures
        r == (match current {
            Some(c) => if c == removed {
                None
            } else if c > removed {
                Some((c - 1) as usize)
            } else {
                Some(c)
            },
            None => None,
        }),
{
    match current {
        Some(c) => if c == removed {
            None
        } else if c > removed {
            Some(c - 1)
        } else {
            Some(c)
        },
        None => None,
    }
}

/// The selection once the track at `removed` has left, the playlist now holding
/// `len` tracks: the track that took its place, else the last one, else none.
pub fn selection_after_removal(len: usize, removed: usize) -> (r: Option<usize>)
    ensures
        len == 0 ==> r is None,
        len > 0 && removed < len ==> r == Some(removed),
        len > 0 && removed >= len ==> r == Some((len - 1) as usize),
{
    if len == 0 {
        None
    } else if removed >= len {
        Some(len - 1)
    } else {
        Some(removed)
    }
}

/// Whole minutes and the remaining seconds of a time of `total_secs` seconds,
/// as a clock shows them.
pub fn minutes_seconds(total_secs: u64) -> (r: (u64, u64))
    ensures
        r.0 * 60 + r.1 == total_secs,
        r.1 < 60,
{
    (total_secs / 60, total_secs % 60)
}

} // verus!
