//! The track of the session: its name, its length, the cameras and the HUD
//! pages that it offers.
//!
//! Payload: the connection id (`i32`), the name of the track (string), its id
//! and its length in metres (`i32` each), a byte that counts the camera sets,
//! for each set its name (string), a byte that counts its cameras and the
//! name of each camera (string), then a byte that counts the HUD pages and
//! the name of each page (string).
//!
//! The camera sets are a map from the name of a set to its cameras, kept as
//! a list in which no name occurs twice: a set that is read under a name that
//! is there already takes the place of the earlier one.

use vstd::prelude::*;
use vstd::slice::slice_subrange;
use crate::telemetry::udp::list::{
    after, bytes_many, lemma_bytes_many_push, lemma_many_round_trip, lemma_read_many_end,
    lemma_read_many_fail, lemma_read_many_start, lemma_read_many_step, spec_read_many,
};
use crate::telemetry::udp::wire::{
    byte, bytes_i32, bytes_string, i32_at, i32_of_bits, lemma_append_assoc,
    lemma_byte_round_trip, lemma_i32_round_trip, lemma_skip_prefix, lemma_string_round_trip,
    parsed, put_le_i32, put_string, read_string, spec_byte, spec_read_string, string_fits, u32_of,
    ParseError, Parsed,
};

verus! {

/// The views of the strings in `strings`, in their order.
pub open spec fn string_views(strings: Seq<String>) -> Seq<Seq<char>> {
    Seq::new(strings.len(), |i: int| strings[i]@)
}

/// The reader of one string.
pub open spec fn string_reader() -> spec_fn(Seq<u8>) -> Parsed<Seq<char>> {
    |input: Seq<u8>| spec_read_string(input)
}

/// The writer of one string.
pub open spec fn string_writer() -> spec_fn(Seq<char>) -> Seq<u8> {
    |text: Seq<char>| bytes_string(text)
}

/// `count` strings, one behind the other.
pub open spec fn spec_read_strings(input: Seq<u8>, count: nat) -> Parsed<Seq<Seq<char>>> {
    spec_read_many(input, count, string_reader())
}

/// The bytes of the strings, one behind the other.
pub open spec fn bytes_strings(strings: Seq<Seq<char>>) -> Seq<u8> {
    bytes_many(strings, string_writer())
}

/// Whether each of the strings fits its sixteen-bit count.
pub open spec fn strings_fit(strings: Seq<Seq<char>>) -> bool {
    forall|i: int| 0 <= i < strings.len() ==> string_fits(#[trigger] strings[i])
}

/// Strings that the wire format can carry, written and read again, are the
/// same strings.
pub proof fn lemma_strings_round_trip(strings: Seq<Seq<char>>, tail: Seq<u8>)
    requires
        strings_fit(strings),
    ensures
        spec_read_strings(bytes_strings(strings) + tail, strings.len()) == Ok::<
            (Seq<u8>, Seq<Seq<char>>),
            ParseError,
        >((tail, strings)),
{
    assert forall|i: int, t: Seq<u8>| 0 <= i < strings.len() implies #[trigger] string_reader()(
        string_writer()(strings[i]) + t,
    ) == Ok::<(Seq<u8>, Seq<char>), ParseError>((t, strings[i])) by {
        assert(string_fits(strings[i]));
        lemma_string_round_trip(strings[i], t);
    }
    lemma_many_round_trip(strings, tail, string_reader(), string_writer());
}

/// Reads `count` strings and returns the bytes behind them.
pub fn read_strings<'a>(input: &'a [u8], count: u8) -> (r: Result<
    (&'a [u8], Vec<String>),
    ParseError,
>)
    ensures
        match r {
            Ok((rest, strings)) => spec_read_strings(input@, count as nat) == Ok::<
                (Seq<u8>, Seq<Seq<char>>),
                ParseError,
            >((rest@, string_views(strings@))),
            Err(e) => spec_read_strings(input@, count as nat) == Err::<
                (Seq<u8>, Seq<Seq<char>>),
                ParseError,
            >(e),
        },
{
    let mut rest = input;
    let mut strings: Vec<String> = Vec::new();
    let mut i: u8 = 0;
    proof {
        lemma_read_many_start(input@, count as nat, string_reader());
        assert(string_views(strings@) =~= Seq::<Seq<char>>::empty());
    }
    while i < count
        invariant
            i <= count,
            spec_read_strings(input@, count as nat) == after(
                string_views(strings@),
                spec_read_many(rest@, (count - i) as nat, string_reader()),
            ),
        decreases count - i,
    {
        let ghost done = string_views(strings@);
        match read_string(rest) {
            Err(e) => {
                proof {
                    lemma_read_many_fail(done, rest@, e, (count - i) as nat, string_reader());
                }
                return Err(e);
            },
            Ok((next, text)) => {
                let owned = text.to_owned();
                proof {
                    lemma_read_many_step(
                        done,
                        rest@,
                        next@,
                        text@,
                        (count - i) as nat,
                        string_reader(),
                    );
                    assert(string_views(strings@.push(owned)) =~= done.push(text@));
                }
                strings.push(owned);
                rest = next;
            },
        }
        i += 1;
    }
    proof {
        lemma_read_many_end(string_views(strings@), rest@, string_reader());
    }
    Ok((rest, strings))
}

/// Appends the bytes of the strings, one behind the other.
pub fn put_strings(out: &mut Vec<u8>, strings: &Vec<String>)
    ensures
        final(out)@ == old(out)@ + bytes_strings(string_views(strings@)),
{
    let mut i: usize = 0;
    assert(string_views(strings@).take(0) =~= Seq::<Seq<char>>::empty());
    assert(out@ =~= old(out)@ + bytes_strings(Seq::<Seq<char>>::empty()));
    while i < strings.len()
        invariant
            i <= strings.len(),
            out@ == old(out)@ + bytes_strings(string_views(strings@).take(i as int)),
        decreases strings.len() - i,
    {
        proof {
            let all = string_views(strings@);
            assert(all.take(i + 1) =~= all.take(i as int).push(strings@[i as int]@));
            lemma_bytes_many_push(all.take(i as int), strings@[i as int]@, string_writer());
            lemma_append_assoc(
                old(out)@,
                bytes_strings(all.take(i as int)),
                bytes_string(strings@[i as int]@),
            );
        }
        put_string(out, strings[i].as_str());
        i += 1;
    }
    assert(string_views(strings@).take(strings@.len() as int) =~= string_views(strings@));
}

/// A set of cameras under a name.
#[derive(Clone, Debug, PartialEq, Eq)]
pub struct CameraSet {
    pub name: String,
    pub cameras: Vec<String>,
}

/// A set of cameras as a mathematical value.
pub struct CameraSetView {
    pub name: Seq<char>,
    pub cameras: Seq<Seq<char>>,
}

impl View for CameraSet {
    type V = CameraSetView;

    open spec fn view(&self) -> CameraSetView {
        CameraSetView { name: self.name@, cameras: string_views(self.cameras@) }
    }
}

impl CameraSetView {
    /// Whether the wire format can carry the set: its name fits, it has at
    /// most 255 cameras, and the name of each fits.
    pub open spec fn fits(self) -> bool {
        &&& string_fits(self.name)
        &&& self.cameras.len() <= 255
        &&& strings_fit(self.cameras)
    }
}

impl CameraSet {
    /// The bytes of the set: its name, the count of its cameras reduced to a
    /// byte, the name of each camera.
    pub open spec fn spec_serialize(v: CameraSetView) -> Seq<u8> {
        bytes_string(v.name) + seq![(v.cameras.len() % 256) as u8] + bytes_strings(v.cameras)
    }

    /// The set that the bytes hold.
    pub open spec fn spec_deserialize(input: Seq<u8>) -> Parsed<CameraSetView> {
        match spec_read_string(input) {
            Err(e) => Err(e),
            Ok((r1, name)) => match spec_byte(r1) {
                Err(e) => Err(e),
                Ok((r2, count)) => match spec_read_strings(r2, count as nat) {
                    Err(e) => Err(e),
                    Ok((r3, cameras)) => Ok((r3, CameraSetView { name, cameras })),
                },
            },
        }
    }

    /// Appends the bytes of the set.
    pub fn write(&self, out: &mut Vec<u8>)
        ensures
            final(out)@ == old(out)@ + Self::spec_serialize(self@),
    {
        let ghost start = out@;
        let ghost acc0 = bytes_string(self.name@);
        let ghost acc1 = acc0 + seq![(self.cameras@.len() % 256) as u8];
        put_string(out, self.name.as_str());
        out.push((self.cameras.len() % 256) as u8);
        assert(out@ =~= start + acc1);
        put_strings(out, &self.cameras);
        proof {
            lemma_append_assoc(start, acc1, bytes_strings(self@.cameras));
        }
    }

    /// Reads a set and returns the bytes behind it.
    pub fn deserialize<'a>(input: &'a [u8]) -> (r: Result<(&'a [u8], CameraSet), ParseError>)
        ensures
            parsed(r, Self::spec_deserialize(input@)),
    {
        let (r1, name) = read_string(input)?;
        let (r2, count) = byte(r1)?;
        let (r3, cameras) = read_strings(r2, count)?;
        Ok((r3, CameraSet { name: name.to_owned(), cameras }))
    }

    /// A set that the wire format can carry, written and read again, is the
    /// same set.
    pub proof fn lemma_round_trip(v: CameraSetView, tail: Seq<u8>)
        requires
            v.fits(),
        ensures
            Self::spec_deserialize(Self::spec_serialize(v) + tail) == Ok::<
                (Seq<u8>, CameraSetView),
                ParseError,
            >((tail, v)),
    {
        let name = bytes_string(v.name);
        let count = (v.cameras.len() % 256) as u8;
        let cameras = bytes_strings(v.cameras);
        assert(Self::spec_serialize(v) + tail == name + (seq![count] + (cameras + tail))) by {
            lemma_append_assoc(name + seq![count], cameras, tail);
            lemma_append_assoc(name, seq![count], cameras + tail);
        }
        lemma_string_round_trip(v.name, seq![count] + (cameras + tail));
        lemma_byte_round_trip(count, cameras + tail);
        lemma_strings_round_trip(v.cameras, tail);
    }
}

/// The views of the camera sets in `sets`, in their order.
pub open spec fn set_views(sets: Seq<CameraSet>) -> Seq<CameraSetView> {
    Seq::new(sets.len(), |i: int| sets[i]@)
}

/// The reader of one camera set.
pub open spec fn set_reader() -> spec_fn(Seq<u8>) -> Parsed<CameraSetView> {
    |input: Seq<u8>| CameraSet::spec_deserialize(input)
}

/// The writer of one camera set.
pub open spec fn set_writer() -> spec_fn(CameraSetView) -> Seq<u8> {
    |v: CameraSetView| CameraSet::spec_serialize(v)
}

/// Whether no two of the sets have the same name.
pub open spec fn distinct_names(sets: Seq<CameraSetView>) -> bool {
    forall|i: int, j: int|
        0 <= i < sets.len() && 0 <= j < sets.len() && i != j ==> (#[trigger] sets[i]).name != (
        #[trigger] sets[j]).name
}

/// Whether one of the sets has the name `name`.
pub open spec fn has_name(sets: Seq<CameraSetView>, name: Seq<char>) -> bool {
    exists|i: int| 0 <= i < sets.len() && (#[trigger] sets[i]).name == name
}

/// The place of a set with the name `name`, where there is one.
pub open spec fn place_of(sets: Seq<CameraSetView>, name: Seq<char>) -> int {
    choose|i: int| 0 <= i < sets.len() && (#[trigger] sets[i]).name == name
}

/// The sets with `set` among them: in the place of the one of its name, or,
/// where there is none, at the end.
pub open spec fn insert_set(sets: Seq<CameraSetView>, set: CameraSetView) -> Seq<CameraSetView> {
    if has_name(sets, set.name) {
        sets.update(place_of(sets, set.name), set)
    } else {
        sets.push(set)
    }
}

/// The map that the sets make when they are inserted in the order in which
/// they were read.
pub open spec fn collect_sets(read: Seq<CameraSetView>) -> Seq<CameraSetView>
    decreases read.len(),
{
    if read.len() == 0 {
        Seq::empty()
    } else {
        insert_set(collect_sets(read.drop_last()), read.last())
    }
}

/// Inserting keeps the names distinct.
pub proof fn lemma_insert_distinct(sets: Seq<CameraSetView>, set: CameraSetView)
    requires
        distinct_names(sets),
    ensures
        distinct_names(insert_set(sets, set)),
{
    let result = insert_set(sets, set);
    if has_name(sets, set.name) {
        let at = place_of(sets, set.name);
        assert forall|i: int, j: int|
            0 <= i < result.len() && 0 <= j < result.len() && i != j implies (
        #[trigger] result[i]).name != (#[trigger] result[j]).name by {
            assert(result[i].name == sets[i].name);
            assert(result[j].name == sets[j].name);
        }
    } else {
        assert forall|i: int, j: int|
            0 <= i < result.len() && 0 <= j < result.len() && i != j implies (
        #[trigger] result[i]).name != (#[trigger] result[j]).name by {
            if i < sets.len() && j < sets.len() {
                assert(result[i] == sets[i]);
                assert(result[j] == sets[j]);
            } else if i < sets.len() {
                assert(result[i] == sets[i]);
            } else {
                assert(result[j] == sets[j]);
            }
        }
    }
}

/// What was collected has distinct names.
pub proof fn lemma_collect_distinct(read: Seq<CameraSetView>)
    ensures
        distinct_names(collect_sets(read)),
    decreases read.len(),
{
    if read.len() > 0 {
        lemma_collect_distinct(read.drop_last());
        lemma_insert_distinct(collect_sets(read.drop_last()), read.last());
    }
}

/// Sets with distinct names are collected as they are.
pub proof fn lemma_collect_same(sets: Seq<CameraSetView>)
    requires
        distinct_names(sets),
    ensures
        collect_sets(sets) == sets,
    decreases sets.len(),
{
    if sets.len() == 0 {
        assert(sets =~= Seq::<CameraSetView>::empty());
    } else {
        let front = sets.drop_last();
        assert(distinct_names(front)) by {
            assert forall|i: int, j: int|
                0 <= i < front.len() && 0 <= j < front.len() && i != j implies (
            #[trigger] front[i]).name != (#[trigger] front[j]).name by {
                assert(front[i] == sets[i]);
                assert(front[j] == sets[j]);
            }
        }
        lemma_collect_same(front);
        assert(!has_name(front, sets.last().name)) by {
            if has_name(front, sets.last().name) {
                let i = place_of(front, sets.last().name);
                assert(front[i] == sets[i]);
                assert(sets[i].name == sets[sets.len() - 1].name);
            }
        }
        assert(front.push(sets.last()) =~= sets);
    }
}

/// Camera sets that the wire format can carry, written and read again, are
/// the same sets in the same order.
pub proof fn lemma_sets_round_trip(sets: Seq<CameraSetView>, tail: Seq<u8>)
    requires
        forall|i: int| 0 <= i < sets.len() ==> (#[trigger] sets[i]).fits(),
    ensures
        spec_read_many(bytes_many(sets, set_writer()) + tail, sets.len(), set_reader()) == Ok::<
            (Seq<u8>, Seq<CameraSetView>),
            ParseError,
        >((tail, sets)),
{
    assert forall|i: int, t: Seq<u8>| 0 <= i < sets.len() implies #[trigger] set_reader()(
        set_writer()(sets[i]) + t,
    ) == Ok::<(Seq<u8>, CameraSetView), ParseError>((t, sets[i])) by {
        assert(sets[i].fits());
        CameraSet::lemma_round_trip(sets[i], t);
    }
    lemma_many_round_trip(sets, tail, set_reader(), set_writer());
}

/// The track of the session.
#[derive(Clone, Debug, PartialEq, Eq)]
pub struct TrackData {
    pub name: String,
    pub id: i32,
    /// Length of the track in metres.
    pub meters: i32,
    /// The camera sets by name; no name occurs twice.
    pub camera_sets: Vec<CameraSet>,
    pub hud_pages: Vec<String>,
}

/// The track as a mathematical value.
pub struct TrackDataView {
    pub name: Seq<char>,
    pub id: i32,
    pub meters: i32,
    pub camera_sets: Seq<CameraSetView>,
    pub hud_pages: Seq<Seq<char>>,
}

impl View for TrackData {
    type V = TrackDataView;

    open spec fn view(&self) -> TrackDataView {
        TrackDataView {
            name: self.name@,
            id: self.id,
            meters: self.meters,
            camera_sets: set_views(self.camera_sets@),
            hud_pages: string_views(self.hud_pages@),
        }
    }
}

impl TrackDataView {
    /// Whether the camera sets are a map: no name occurs twice.
    pub open spec fn wf(self) -> bool {
        distinct_names(self.camera_sets)
    }

    /// Whether the wire format can carry the track: the camera sets are a
    /// map, every string fits its count, and every run has at most 255
    /// members.
    pub open spec fn fits(self) -> bool {
        &&& self.wf()
        &&& string_fits(self.name)
        &&& self.camera_sets.len() <= 255
        &&& forall|i: int|
            0 <= i < self.camera_sets.len() ==> (#[trigger] self.camera_sets[i]).fits()
        &&& self.hud_pages.len() <= 255
        &&& strings_fit(self.hud_pages)
    }

    /// The track before anything was received.
    pub open spec fn initial() -> TrackDataView {
        TrackDataView {
            name: Seq::empty(),
            id: 0,
            meters: 0,
            camera_sets: Seq::empty(),
            hud_pages: Seq::empty(),
        }
    }
}

impl Default for TrackData {
    /// The track before anything was received.
    fn default() -> (r: TrackData)
        ensures
            r@ == TrackDataView::initial(),
            r@.wf(),
    {
        let r = TrackData {
            name: String::new(),
            id: 0,
            meters: 0,
            camera_sets: Vec::new(),
            hud_pages: Vec::new(),
        };
        assert(r@.camera_sets =~= Seq::<CameraSetView>::empty());
        assert(r@.hud_pages =~= Seq::<Seq<char>>::empty());
        r
    }
}

/// Puts `set` among `sets`: in the place of the one of its name, or, where
/// there is none, at the end.
pub fn insert_camera_set(sets: &mut Vec<CameraSet>, set: CameraSet)
    requires
        distinct_names(set_views(old(sets)@)),
    ensures
        set_views(final(sets)@) == insert_set(set_views(old(sets)@), set@),
        distinct_names(set_views(final(sets)@)),
{
    let ghost before = set_views(sets@);
    proof {
        lemma_insert_distinct(before, set@);
    }
    let mut i: usize = 0;
    while i < sets.len()
        invariant
            i <= sets.len(),
            sets@ == old(sets)@,
            before == set_views(sets@),
            distinct_names(before),
            distinct_names(insert_set(before, set@)),
            forall|k: int| 0 <= k < i ==> (#[trigger] before[k]).name != set@.name,
        decreases sets.len() - i,
    {
        if sets[i].name == set.name {
            proof {
                assert(before[i as int].name == set@.name);
                assert(has_name(before, set@.name));
                let at = place_of(before, set@.name);
                assert(at == i) by {
                    if at != i {
                        assert(before[at].name == before[i as int].name);
                    }
                }
                assert(set_views(sets@.update(i as int, set)) =~= before.update(i as int, set@));
            }
            sets[i] = set;
            return ;
        }
        i += 1;
    }
    proof {
        assert(!has_name(before, set@.name));
        assert(set_views(sets@.push(set)) =~= before.push(set@));
    }
    sets.push(set);
}

/// Reads `count` camera sets into a map and returns the bytes behind them.
pub fn read_camera_sets<'a>(input: &'a [u8], count: u8) -> (r: Result<
    (&'a [u8], Vec<CameraSet>),
    ParseError,
>)
    ensures
        match r {
            Ok((rest, sets)) => {
                &&& spec_read_many(input@, count as nat, set_reader()) is Ok
                &&& rest@ == spec_read_many(input@, count as nat, set_reader())->Ok_0.0
                &&& set_views(sets@) == collect_sets(
                    spec_read_many(input@, count as nat, set_reader())->Ok_0.1,
                )
            },
            Err(e) => spec_read_many(input@, count as nat, set_reader()) == Err::<
                (Seq<u8>, Seq<CameraSetView>),
                ParseError,
            >(e),
        },
{
    let mut rest = input;
    let mut sets: Vec<CameraSet> = Vec::new();
    let ghost mut read: Seq<CameraSetView> = Seq::empty();
    let mut i: u8 = 0;
    proof {
        lemma_read_many_start(input@, count as nat, set_reader());
        assert(set_views(sets@) =~= collect_sets(read));
    }
    while i < count
        invariant
            i <= count,
            set_views(sets@) == collect_sets(read),
            distinct_names(set_views(sets@)),
            spec_read_many(input@, count as nat, set_reader()) == after(
                read,
                spec_read_many(rest@, (count - i) as nat, set_reader()),
            ),
        decreases count - i,
    {
        match CameraSet::deserialize(rest) {
            Err(e) => {
                proof {
                    lemma_read_many_fail(read, rest@, e, (count - i) as nat, set_reader());
                }
                return Err(e);
            },
            Ok((next, set)) => {
                proof {
                    lemma_read_many_step(
                        read,
                        rest@,
                        next@,
                        set@,
                        (count - i) as nat,
                        set_reader(),
                    );
                    assert(read.push(set@).drop_last() =~= read);
                    read = read.push(set@);
                }
                insert_camera_set(&mut sets, set);
                rest = next;
            },
        }
        i += 1;
    }
    proof {
        lemma_read_many_end(read, rest@, set_reader());
    }
    Ok((rest, sets))
}

/// Appends the bytes of the camera sets, one behind the other.
pub fn put_camera_sets(out: &mut Vec<u8>, sets: &Vec<CameraSet>)
    ensures
        final(out)@ == old(out)@ + bytes_many(set_views(sets@), set_writer()),
{
    let mut i: usize = 0;
    assert(set_views(sets@).take(0) =~= Seq::<CameraSetView>::empty());
    assert(out@ =~= old(out)@ + bytes_many(Seq::<CameraSetView>::empty(), set_writer()));
    while i < sets.len()
        invariant
            i <= sets.len(),
            out@ == old(out)@ + bytes_many(set_views(sets@).take(i as int), set_writer()),
        decreases sets.len() - i,
    {
        proof {
            let all = set_views(sets@);
            assert(all.take(i + 1) =~= all.take(i as int).push(sets@[i as int]@));
            lemma_bytes_many_push(all.take(i as int), sets@[i as int]@, set_writer());
            lemma_append_assoc(
                old(out)@,
                bytes_many(all.take(i as int), set_writer()),
                CameraSet::spec_serialize(sets@[i as int]@),
            );
        }
        sets[i].write(out);
        i += 1;
    }
    assert(set_views(sets@).take(sets@.len() as int) =~= set_views(sets@));
}

impl TrackData {
    /// The nine bytes between the name of the track and its camera sets: id
    /// and length (`i32` each), and the count of the sets reduced to a byte.
    pub open spec fn bytes_measure(v: TrackDataView) -> Seq<u8> {
        bytes_i32(v.id) + bytes_i32(v.meters) + seq![(v.camera_sets.len() % 256) as u8]
    }

    /// The payload of the track. The connection id is written as zero.
    pub open spec fn spec_serialize(v: TrackDataView) -> Seq<u8> {
        bytes_i32(0) + bytes_string(v.name) + Self::bytes_measure(v) + bytes_many(
            v.camera_sets,
            set_writer(),
        ) + seq![(v.hud_pages.len() % 256) as u8] + bytes_strings(v.hud_pages)
    }

    /// The track that a payload holds. The connection id is read and not
    /// looked at.
    ///
    /// The definition is opaque, to keep it out of proofs that do not need
    /// it: `reveal` it to unfold it.
    #[verifier::opaque]
    pub open spec fn spec_deserialize(input: Seq<u8>) -> Parsed<TrackDataView> {
        if input.len() < 4 {
            Err(ParseError::Incomplete)
        } else {
            Self::spec_read_body(input.skip(4))
        }
    }

    /// Appends the nine bytes between the name and the camera sets.
    fn put_measure(&self, out: &mut Vec<u8>)
        ensures
            final(out)@ == old(out)@ + Self::bytes_measure(self@),
    {
        put_le_i32(out, self.id);
        put_le_i32(out, self.meters);
        out.push((self.camera_sets.len() % 256) as u8);
        assert(out@ =~= old(out)@ + Self::bytes_measure(self@));
    }

    /// Appends the payload of the track.
    pub fn write(&self, out: &mut Vec<u8>)
        ensures
            final(out)@ == old(out)@ + Self::spec_serialize(self@),
    {
        let ghost start = out@;
        let ghost count = seq![(self.hud_pages@.len() % 256) as u8];
        let ghost acc0 = bytes_i32(0);
        let ghost acc1 = acc0 + bytes_string(self.name@);
        let ghost acc2 = acc1 + Self::bytes_measure(self@);
        let ghost acc3 = acc2 + bytes_many(self@.camera_sets, set_writer());
        let ghost acc4 = acc3 + count;
        put_le_i32(out, 0);
        put_string(out, self.name.as_str());
        self.put_measure(out);
        put_camera_sets(out, &self.camera_sets);
        proof {
            lemma_append_assoc(start, acc0, bytes_string(self.name@));
            lemma_append_assoc(start, acc1, Self::bytes_measure(self@));
            lemma_append_assoc(start, acc2, bytes_many(self@.camera_sets, set_writer()));
        }
        out.push((self.hud_pages.len() % 256) as u8);
        assert(out@ =~= (start + acc3) + count);
        put_strings(out, &self.hud_pages);
        proof {
            lemma_append_assoc(start, acc3, count);
            lemma_append_assoc(start, acc4, bytes_strings(self@.hud_pages));
        }
    }

    /// The payload of the track.
    pub fn serialize(&self) -> (r: Vec<u8>)
        ensures
            r@ == Self::spec_serialize(self@),
    {
        let mut out: Vec<u8> = Vec::new();
        self.write(&mut out);
        assert(out@ =~= Self::spec_serialize(self@));
        out
    }

    /// Reads a track off its payload and returns the bytes behind it. The
    /// camera sets of the track that is read are a map.
    pub fn deserialize<'a>(input: &'a [u8]) -> (r: Result<(&'a [u8], TrackData), ParseError>)
        ensures
            parsed(r, Self::spec_deserialize(input@)),
            r matches Ok((_, track)) ==> track@.wf(),
    {
        reveal(TrackData::spec_deserialize);
        if input.len() < 4 {
            return Err(ParseError::Incomplete);
        }
        let (r1, name) = read_string(slice_subrange(input, 4, input.len()))?;
        if r1.len() < 9 {
            return Err(ParseError::Incomplete);
        }
        let id = i32_at(r1, 0);
        let meters = i32_at(r1, 4);
        let camera_set_count = r1[8];
        let (r2, camera_sets) = read_camera_sets(
            slice_subrange(r1, 9, r1.len()),
            camera_set_count,
        )?;
        let (r3, hud_pages_count) = byte(r2)?;
        let (r4, hud_pages) = read_strings(r3, hud_pages_count)?;
        proof {
            lemma_collect_distinct(
                spec_read_many(r1@.skip(9), camera_set_count as nat, set_reader())->Ok_0.1,
            );
        }
        Ok((r4, TrackData { name: name.to_owned(), id, meters, camera_sets, hud_pages }))
    }

    /// The nine bytes between name and camera sets give back what they hold.
    proof fn lemma_measure(v: TrackDataView)
        requires
            v.camera_sets.len() <= 255,
        ensures
            ({
                let measure = Self::bytes_measure(v);
                &&& measure.len() == 9
                &&& i32_of_bits(u32_of(measure[0], measure[1], measure[2], measure[3])) == v.id
                &&& i32_of_bits(u32_of(measure[4], measure[5], measure[6], measure[7]))
                    == v.meters
                &&& measure[8] as nat == v.camera_sets.len()
            }),
    {
        lemma_i32_round_trip(v.id, Seq::empty());
        lemma_i32_round_trip(v.meters, Seq::empty());
    }

    /// Where the parts of a track lie in a buffer.
    proof fn lemma_layout(
        id: Seq<u8>,
        name: Seq<u8>,
        measure: Seq<u8>,
        sets: Seq<u8>,
        count: Seq<u8>,
        pages: Seq<u8>,
        tail: Seq<u8>,
    )
        ensures
            id + name + measure + sets + count + pages + tail == id + (name + (measure + (sets + (
                count + (pages + tail))))),
    {
        lemma_append_assoc(id + name + measure + sets + count, pages, tail);
        lemma_append_assoc(id + name + measure + sets, count, pages + tail);
        lemma_append_assoc(id + name + measure, sets, count + (pages + tail));
        lemma_append_assoc(id + name, measure, sets + (count + (pages + tail)));
        lemma_append_assoc(id, name, measure + (sets + (count + (pages + tail))));
    }

    /// What is read from the name of the track on.
    pub open spec fn spec_read_body(r0: Seq<u8>) -> Parsed<TrackDataView> {
        match spec_read_string(r0) {
            Err(e) => Err(e),
            Ok((r1, name)) => {
                if r1.len() < 9 {
                    Err(ParseError::Incomplete)
                } else {
                    match spec_read_many(r1.skip(9), r1[8] as nat, set_reader()) {
                        Err(e) => Err(e),
                        Ok((r2, sets)) => match spec_byte(r2) {
                            Err(e) => Err(e),
                            Ok((r3, count)) => match spec_read_strings(r3, count as nat) {
                                Err(e) => Err(e),
                                Ok((r4, hud_pages)) => Ok(
                                    (
                                        r4,
                                        TrackDataView {
                                            name,
                                            id: i32_of_bits(u32_of(r1[0], r1[1], r1[2], r1[3])),
                                            meters: i32_of_bits(
                                                u32_of(r1[4], r1[5], r1[6], r1[7]),
                                            ),
                                            camera_sets: collect_sets(sets),
                                            hud_pages,
                                        },
                                    ),
                                ),
                            },
                        },
                    }
                }
            },
        }
    }

    /// The HUD pages behind their count, written and read again, are the same.
    proof fn lemma_pages(pages: Seq<Seq<char>>, tail: Seq<u8>)
        requires
            pages.len() <= 255,
            strings_fit(pages),
        ensures
            ({
                let count = (pages.len() % 256) as u8;
                let t4 = bytes_strings(pages) + tail;
                &&& count as nat == pages.len()
                &&& spec_byte(seq![count] + t4) == Ok::<
                    (Seq<u8>, u8),
                    ParseError,
                >((t4, count))
                &&& spec_read_strings(t4, pages.len()) == Ok::<
                    (Seq<u8>, Seq<Seq<char>>),
                    ParseError,
                >((tail, pages))
            }),
    {
        let count = (pages.len() % 256) as u8;
        lemma_byte_round_trip(count, bytes_strings(pages) + tail);
        lemma_strings_round_trip(pages, tail);
    }

    /// A track that the wire format can carry, written and read again, is the
    /// same track.
    #[verifier::rlimit(50)]
    pub proof fn lemma_round_trip(v: TrackDataView, tail: Seq<u8>)
        requires
            v.fits(),
        ensures
            Self::spec_deserialize(Self::spec_serialize(v) + tail) == Ok::<
                (Seq<u8>, TrackDataView),
                ParseError,
            >((tail, v)),
    {
        reveal(TrackData::spec_deserialize);
        let id = bytes_i32(0);
        let name = bytes_string(v.name);
        let measure = Self::bytes_measure(v);
        let sets = bytes_many(v.camera_sets, set_writer());
        let count = seq![(v.hud_pages.len() % 256) as u8];
        let pages = bytes_strings(v.hud_pages);
        let input = Self::spec_serialize(v) + tail;
        let t2 = sets + (count + (pages + tail));
        let t1 = measure + t2;
        let t0 = name + t1;
        Self::lemma_layout(id, name, measure, sets, count, pages, tail);
        lemma_skip_prefix(id, t0);
        assert(input.skip(4) == t0);
        lemma_string_round_trip(v.name, t1);
        Self::lemma_measure(v);
        lemma_skip_prefix(measure, t2);
        lemma_sets_round_trip(v.camera_sets, count + (pages + tail));
        lemma_collect_same(v.camera_sets);
        Self::lemma_pages(v.hud_pages, tail);
        assert(Self::spec_read_body(t0) == Ok::<(Seq<u8>, TrackDataView), ParseError>((tail, v)));
    }
}

} // verus!
