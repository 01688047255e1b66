//! The audio-file list and the playback model.
//!
//! Audio files are discovered by an external directory scan; the core
//! receives plain entries, keeps those whose extension names a supported
//! audio format (case-insensitively `mp3` or `wav`), and sorts them by
//! name once at load time.  Playback itself runs in an external audio
//! library; the core owns only the control state — what is selected, what
//! is playing — and tells the embedding which effect to perform.

use vstd::prelude::*;
use vstd::string::StrSliceExecFns;

verus! {

/// One playable file: display name (the file stem) and the path the
/// embedding needs to open it.
#[derive(Clone, Debug)]
pub struct AudioFileInfo {
    pub name: String,
    pub path: String,
}

/// The playback half of the controller's state machine.
#[derive(Clone, Copy, PartialEq, Eq, Structural, Debug)]
pub enum PlaybackState {
    Playing,
    Paused,
    Stopped,
}

/// The playback controller's persistent state.  The volume is a
/// percentage (0 to 100) applied to each newly created audio resource at
/// play time.
#[derive(Clone, Copy, PartialEq, Eq, Structural, Debug)]
pub struct MusicPlayerState {
    pub current_playing_index: Option<usize>,
    pub playback_state: PlaybackState,
    pub current_position: Option<u64>,
    pub volume_percent: u8,
}

impl MusicPlayerState {
    /// The initial controller state: nothing recorded, stopped, volume
    /// at 80 percent.
    pub open spec fn default_spec() -> MusicPlayerState {
        MusicPlayerState {
            current_playing_index: Option::None,
            playback_state: PlaybackState::Stopped,
            current_position: Option::None,
            volume_percent: 80u8,
        }
    }

    /// The state after recording an attempt to start playing file
    /// `index`: the file becomes current either way; success means
    /// playing, failure means stopped.
    pub open spec fn played(p: MusicPlayerState, index: usize, started: bool) -> MusicPlayerState {
        MusicPlayerState {
            current_playing_index: Option::Some(index),
            playback_state: if started {
                PlaybackState::Playing
            } else {
                PlaybackState::Stopped
            },
            ..p
        }
    }

    /// The state after a toggle, given whether a resource is live: a
    /// live resource flips between playing and paused; without one the
    /// state is untouched (a recorded file is retried through the
    /// returned effect instead).
    pub open spec fn toggled(p: MusicPlayerState, live: bool) -> MusicPlayerState {
        if live {
            if p.playback_state is Paused {
                MusicPlayerState { playback_state: PlaybackState::Playing, ..p }
            } else {
                MusicPlayerState { playback_state: PlaybackState::Paused, ..p }
            }
        } else {
            p
        }
    }

    /// What a toggle asks the embedding to do: pause or resume the live
    /// resource, restart the recorded file when no resource is live, or
    /// nothing at all.
    pub open spec fn toggle_effect(p: MusicPlayerState, live: bool) -> AudioEffect {
        if live {
            if p.playback_state is Paused {
                AudioEffect::Resume
            } else {
                AudioEffect::Pause
            }
        } else {
            match p.current_playing_index {
                Option::Some(i) => AudioEffect::Start { index: i },
                Option::None => AudioEffect::Nothing,
            }
        }
    }

    /// The state after a stop: stopped, with the recorded file kept.
    pub open spec fn stopped(p: MusicPlayerState) -> MusicPlayerState {
        MusicPlayerState { playback_state: PlaybackState::Stopped, ..p }
    }
}

impl Default for MusicPlayerState {
    /// Nothing selected, nothing playing, volume at 80 percent.
    fn default() -> (r: Self)
        ensures
            r == MusicPlayerState::default_spec(),
    {
        MusicPlayerState {
            current_playing_index: Option::None,
            playback_state: PlaybackState::Stopped,
            current_position: Option::None,
            volume_percent: 80,
        }
    }
}

/// What the embedding application must do to the real audio device after
/// a dispatch call: nothing, start playing the file at an index (after
/// releasing any previous resource), pause or resume the live resource,
/// or stop and release it.
#[derive(Clone, Copy, PartialEq, Eq, Structural, Debug)]
pub enum AudioEffect {
    Nothing,
    Start { index: usize },
    Pause,
    Resume,
    Stop,
}

/// One entry handed over by the external directory scan: the file stem,
/// the extension (empty when the file has none) and the full path.
#[derive(Clone, Debug)]
pub struct ScannedFile {
    pub stem: String,
    pub extension: String,
    pub path: String,
}

/// The extension names a supported audio format: `mp3` or `wav` in any
/// letter case.
pub open spec fn is_audio_extension_spec(e: Seq<char>) -> bool {
    e.len() == 3 && {
        ||| ((e[0] == 'm' || e[0] == 'M') && (e[1] == 'p' || e[1] == 'P') && e[2] == '3')
        ||| ((e[0] == 'w' || e[0] == 'W') && (e[1] == 'a' || e[1] == 'A') && (e[2] == 'v' || e[2]
            == 'V'))
    }
}

/// Decide whether an extension names a supported audio format.
pub fn is_audio_extension(e: &String) -> (r: bool)
    ensures
        r == is_audio_extension_spec(e@),
{
    let s = e.as_str();
    if s.unicode_len() != 3 {
        return false;
    }
    let c0 = s.get_char(0);
    let c1 = s.get_char(1);
    let c2 = s.get_char(2);
    ((c0 == 'm' || c0 == 'M') && (c1 == 'p' || c1 == 'P') && c2 == '3') || ((c0 == 'w' || c0 == 'W')
        && (c1 == 'a' || c1 == 'A') && (c2 == 'v' || c2 == 'V'))
}

/// The playable files among the scanned entries, in scan order, with the
/// stem as display name.
pub open spec fn audio_entries(entries: Seq<ScannedFile>) -> Seq<AudioFileInfo>
    decreases entries.len(),
{
    if entries.len() == 0 {
        Seq::empty()
    } else {
        let rest = audio_entries(entries.drop_last());
        let last = entries.last();
        if is_audio_extension_spec(last.extension@) {
            rest.push(AudioFileInfo { name: last.stem, path: last.path })
        } else {
            rest
        }
    }
}

/// Lexicographic order on character sequences, by code point: the empty
/// sequence comes first, then order is decided by the first differing
/// character.
pub open spec fn lex_le(a: Seq<char>, b: Seq<char>) -> bool
    decreases a.len(),
{
    if a.len() == 0 {
        true
    } else if b.len() == 0 {
        false
    } else if (a[0] as u32) < (b[0] as u32) {
        true
    } else if (a[0] as u32) > (b[0] as u32) {
        false
    } else {
        lex_le(a.skip(1), b.skip(1))
    }
}

/// The lexicographic order is total.
pub proof fn lemma_lex_le_total(a: Seq<char>, b: Seq<char>)
    ensures
        lex_le(a, b) || lex_le(b, a),
    decreases a.len(),
{
    if a.len() > 0 && b.len() > 0 && (a[0] as u32) == (b[0] as u32) {
        lemma_lex_le_total(a.skip(1), b.skip(1));
    }
}

/// The lexicographic order is transitive.
pub proof fn lemma_lex_le_trans(a: Seq<char>, b: Seq<char>, c: Seq<char>)
    requires
        lex_le(a, b),
        lex_le(b, c),
    ensures
        lex_le(a, c),
    decreases a.len(),
{
    if a.len() > 0 && b.len() > 0 && c.len() > 0 {
        if (a[0] as u32) == (b[0] as u32) && (b[0] as u32) == (c[0] as u32) {
            lemma_lex_le_trans(a.skip(1), b.skip(1), c.skip(1));
        }
    }
}

/// The lexicographic order is reflexive.
pub proof fn lemma_lex_le_refl(a: Seq<char>)
    ensures
        lex_le(a, a),
    decreases a.len(),
{
    if a.len() > 0 {
        lemma_lex_le_refl(a.skip(1));
    }
}

/// Sequences that agree on their first `i` characters compare however
/// their tails compare.
proof fn lemma_lex_le_common_prefix(a: Seq<char>, b: Seq<char>, i: int)
    requires
        0 <= i <= a.len(),
        i <= b.len(),
        forall|k: int| 0 <= k < i ==> a[k] == b[k],
    ensures
        lex_le(a, b) == lex_le(a.skip(i), b.skip(i)),
    decreases i,
{
    if i == 0 {
        assert(a.skip(0) =~= a);
        assert(b.skip(0) =~= b);
    } else {
        assert(a.len() > 0 && b.len() > 0 && a[0] == b[0]);
        lemma_lex_le_common_prefix(a.skip(1), b.skip(1), i - 1);
        assert(a.skip(1).skip(i - 1) =~= a.skip(i));
        assert(b.skip(1).skip(i - 1) =~= b.skip(i));
    }
}

/// Decide the lexicographic order of two names.
pub fn name_le(a: &String, b: &String) -> (r: bool)
    ensures
        r == lex_le(a@, b@),
{
    let sa = a.as_str();
    let sb = b.as_str();
    let a_len = sa.unicode_len();
    let b_len = sb.unicode_len();
    let mut i: usize = 0;
    while i < a_len && i < b_len
        invariant
            0 <= i <= a_len,
            i <= b_len,
            a_len == a@.len(),
            b_len == b@.len(),
            sa@ == a@,
            sb@ == b@,
            forall|k: int| 0 <= k < i ==> a@[k] == b@[k],
        decreases a_len - i,
    {
        let ca = sa.get_char(i);
        let cb = sb.get_char(i);
        if (ca as u32) < (cb as u32) {
            proof {
                lemma_lex_le_common_prefix(a@, b@, i as int);
            }
            return true;
        }
        if (ca as u32) > (cb as u32) {
            proof {
                lemma_lex_le_common_prefix(a@, b@, i as int);
            }
            return false;
        }
        proof {
            assert(ca == cb);
        }
        i = i + 1;
    }
    proof {
        lemma_lex_le_common_prefix(a@, b@, i as int);
    }
    i >= a_len
}

/// Sorted by name, lexicographically.
pub open spec fn sorted_by_name(s: Seq<AudioFileInfo>) -> bool {
    forall|i: int, j: int| 0 <= i < j < s.len() ==> lex_le(s[i].name@, s[j].name@)
}

/// Inserting an element anywhere adds exactly it to the sequence's
/// multiset.
proof fn lemma_insert_to_multiset(s: Seq<AudioFileInfo>, j: int, x: AudioFileInfo)
    requires
        0 <= j <= s.len(),
    ensures
        s.insert(j, x).to_multiset() =~= s.to_multiset().insert(x),
{
    broadcast use vstd::seq_lib::group_to_multiset_ensures;
    broadcast use vstd::multiset::group_multiset_axioms;

    let t = s.insert(j, x);
    s.insert_ensures(j, x);
    assert(t.remove(j) =~= s);
    assert(t[j] == x);
    assert(t.remove(j).to_multiset() =~= t.to_multiset().remove(t[j]));
    assert(t.contains(x));
    assert(t.to_multiset().count(x) > 0);
    assert forall|y: AudioFileInfo|
        s.to_multiset().insert(x).count(y) == t.to_multiset().count(y) by {
        assert(s.to_multiset().count(y) == t.to_multiset().remove(x).count(y));
    }
}

/// Insert `x` into a sorted list, keeping it sorted.
fn insert_sorted(v: &mut Vec<AudioFileInfo>, x: AudioFileInfo)
    requires
        sorted_by_name(old(v)@),
        old(v)@.len() < usize::MAX,
    ensures
        sorted_by_name(final(v)@),
        final(v)@.to_multiset() =~= old(v)@.to_multiset().insert(x),
        final(v)@.len() == old(v)@.len() + 1,
{
    let mut j: usize = 0;
    while j < v.len() && name_le(&v[j].name, &x.name)
        invariant
            j <= v@.len(),
            forall|k: int| 0 <= k < j ==> lex_le(v@[k].name@, x.name@),
            *v == *old(v),
        decreases v@.len() - j,
    {
        j = j + 1;
    }
    proof {
        if j < v@.len() {
            lemma_lex_le_total(v@[j as int].name@, x.name@);
        }
        lemma_insert_to_multiset(v@, j as int, x);
        v@.insert_ensures(j as int, x);
    }
    let ghost pre = v@;
    v.insert(j, x);
    proof {
        assert forall|p: int, q: int|
            0 <= p < q < v@.len() implies lex_le(v@[p].name@, v@[q].name@) by {
            if q < j {
                assert(v@[p] == pre[p] && v@[q] == pre[q]);
            } else if p < j && q == j {
                assert(v@[p] == pre[p] && v@[q] == x);
            } else if p < j && q > j {
                assert(v@[p] == pre[p] && v@[q] == pre[q - 1]);
            } else if p == j && q > j {
                assert(v@[p] == x && v@[q] == pre[q - 1]);
                if q - 1 > j {
                    assert(lex_le(pre[j as int].name@, pre[q - 1].name@));
                    lemma_lex_le_trans(x.name@, pre[j as int].name@, pre[q - 1].name@);
                }
            } else {
                assert(v@[p] == pre[p - 1] && v@[q] == pre[q - 1]);
            }
        }
    }
}

/// Build the playable list from the scanned entries: keep the supported
/// formats and sort them by name.
pub fn build_audio_list(entries: Vec<ScannedFile>) -> (r: Vec<AudioFileInfo>)
    ensures
        sorted_by_name(r@),
        r@.to_multiset() =~= audio_entries(entries@).to_multiset(),
{
    let ghost orig = entries@;
    let mut pending = entries;
    let total = pending.len();
    let ghost mut done: int = 0;
    let mut out: Vec<AudioFileInfo> = Vec::new();
    while pending.len() > 0
        invariant
            orig.len() == total,
            0 <= done <= orig.len(),
            pending@ == orig.skip(done),
            sorted_by_name(out@),
            out@.to_multiset() =~= audio_entries(orig.take(done)).to_multiset(),
            out@.len() <= done,
        decreases pending.len(),
    {
        broadcast use vstd::seq_lib::group_to_multiset_ensures;

        proof {
            assert(orig.take(done + 1).drop_last() =~= orig.take(done));
            assert(orig.take(done + 1).last() == orig[done]);
            assert(pending@[0] == orig[done]);
        }
        let entry = pending.remove(0);
        if is_audio_extension(&entry.extension) {
            let info = AudioFileInfo { name: entry.stem, path: entry.path };
            insert_sorted(&mut out, info);
        }
        proof {
            assert(pending@ =~= orig.skip(done + 1));
            done = done + 1;
        }
    }
    proof {
        assert(orig.skip(done).len() == 0);
        assert(done == orig.len());
        assert(orig.take(done) =~= orig);
    }
    out
}

} // verus!
