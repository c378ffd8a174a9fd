//! Timers that outlive the program, the alarm that they set off, and a stopwatch.

use crate::clock;
use crate::clock::Timestamp;
use crate::table;
use crate::table::Row;
use crate::text;
use vstd::prelude::*;

verus! {

/// A timer.
pub struct Timer {
    pub id: u64,
    pub description: String,
    pub timestamp: Timestamp,
}

/// A timer, with its description as a sequence of characters.
pub struct TimerView {
    pub id: u64,
    pub description: Seq<char>,
    pub timestamp: Timestamp,
}

impl View for Timer {
    type V = TimerView;

    open spec fn view(&self) -> TimerView {
        TimerView { id: self.id, description: self.description@, timestamp: self.timestamp }
    }
}

/// The timers of a list.
pub open spec fn timer_views(v: Seq<Timer>) -> Seq<TimerView> {
    v.map_values(|t: Timer| t@)
}

fn copy_timer(t: &Timer) -> (r: Timer)
    ensures
        r@ == t@,
{
    Timer { id: t.id, description: t.description.clone(), timestamp: t.timestamp }
}

/// The timers that are set, and the id that the next one will get.
pub struct TimerStore {
    timers: Vec<Timer>,
    next_id: u64,
}

impl View for TimerStore {
    type V = Seq<TimerView>;

    /// The timers, in the order in which they were set.
    closed spec fn view(&self) -> Seq<TimerView> {
        timer_views(self.timers@)
    }
}

/// Whether every timer of a list goes off at a point in time of the calendar.
pub open spec fn all_valid(timers: Seq<TimerView>) -> bool {
    forall|i: int| 0 <= i < timers.len() ==> (#[trigger] timers[i]).timestamp.valid()
}

/// Whether the RFC 3339 text of every timer's point in time says all of it.
pub open spec fn all_printable(timers: Seq<TimerView>) -> bool {
    forall|i: int| 0 <= i < timers.len() ==> (#[trigger] timers[i]).timestamp.printable()
}

/// Whether every id of a list is below `next`.
pub open spec fn ids_below(timers: Seq<TimerView>, next: u64) -> bool {
    forall|i: int| 0 <= i < timers.len() ==> (#[trigger] timers[i]).id < next
}

/// Whether no two timers of a list have the same id.
pub open spec fn ids_distinct(timers: Seq<TimerView>) -> bool {
    forall|i: int, j: int|
        0 <= i < j < timers.len() ==> (#[trigger] timers[i]).id != (#[trigger] timers[j]).id
}

impl TimerStore {
    /// The id that the next timer will get.
    pub closed spec fn next(&self) -> u64 {
        self.next_id
    }

    /// Every timer goes off at a point in time of the calendar.
    pub open spec fn well_formed(&self) -> bool {
        all_valid(self@)
    }

    /// No two timers have the same id, and every id is below the next one. A file can
    /// give two timers the same id.
    pub open spec fn unique_ids(&self) -> bool {
        &&& ids_distinct(self@)
        &&& ids_below(self@, self.next())
    }

    /// No timers; the first one will get the id 1.
    pub fn new() -> (r: TimerStore)
        ensures
            r.well_formed(),
            r.unique_ids(),
            r@ == Seq::<TimerView>::empty(),
            r.next() == 1,
    {
        let r = TimerStore { timers: Vec::new(), next_id: 1 };
        assert(r@ =~= Seq::<TimerView>::empty());
        r
    }
}

// ---------------------------------------------------------------- the file

/// The names of the columns of the timers file.
pub open spec fn timer_columns() -> Seq<Seq<char>> {
    seq!["id"@, "description"@, "timestamp"@]
}

/// The row of a timer in the timers file.
pub open spec fn timer_row(t: TimerView) -> Seq<Seq<char>> {
    seq![
        text::decimal(t.id as nat),
        t.description,
        clock::rfc3339_text(t.timestamp.seconds, t.timestamp.nanos, t.timestamp.offset),
    ]
}

/// The rows of the timers of a list.
pub open spec fn timer_rows(timers: Seq<TimerView>) -> Seq<Seq<Seq<char>>> {
    timers.map_values(|t: TimerView| timer_row(t))
}

/// What the timers file holds when these timers are set.
pub open spec fn timers_file(timers: Seq<TimerView>) -> Seq<char> {
    table::csv_table(timer_columns(), timer_rows(timers))
}

/// What the timers file holds for these timers.
pub fn save_timers(store: &TimerStore) -> (r: String)
    requires
        store.well_formed(),
    ensures
        r@ == timers_file(store@),
{
    let mut columns: Vec<String> = Vec::new();
    columns.push("id".to_owned());
    columns.push("description".to_owned());
    columns.push("timestamp".to_owned());
    assert(text::texts(columns@) =~= timer_columns());
    let mut out = table::write_record(&columns);
    let ghost header = out@;
    let mut i: usize = 0;
    proof {
        assert(timer_rows(store@).take(0) =~= Seq::<Seq<Seq<char>>>::empty());
        assert(header + Seq::<char>::empty() =~= header);
    }
    while i < store.timers.len()
        invariant
            i <= store.timers.len(),
            store.well_formed(),
            header == table::csv_record(timer_columns()),
            out@ == header + table::csv_body(timer_rows(store@).take(i as int)),
        decreases store.timers.len() - i,
    {
        let t = &store.timers[i];
        assert(store@[i as int] == t@);
        let mut fields: Vec<String> = Vec::new();
        fields.push(text::decimal_text(t.id));
        fields.push(t.description.clone());
        fields.push(clock::print_time(&t.timestamp));
        assert(text::texts(fields@) =~= timer_row(t@));
        let record = table::write_record(&fields);
        out.append(record.as_str());
        proof {
            let rows = timer_rows(store@);
            assert(rows.take(i + 1).drop_last() =~= rows.take(i as int));
            assert(rows.take(i + 1).last() == timer_row(t@));
            assert((header + table::csv_body(rows.take(i as int))) + record@ =~= header + (
            table::csv_body(rows.take(i as int)) + record@));
        }
        i = i + 1;
    }
    assert(timer_rows(store@).take(i as int) =~= timer_rows(store@));
    out
}

/// Why the timers file cannot be read.
pub enum LoadError<S> {
    /// A row cannot be read.
    Row(S),
    /// A row has fewer fields than a timer has.
    MissingField,
    /// An id is no number from 0 to 2^64 - 1.
    Id,
    /// A point in time cannot be read.
    Time(S),
    /// No id is left for the next timer.
    NoFreeId,
}

/// An error with its text as a sequence of characters.
pub open spec fn load_error_view(e: LoadError<String>) -> LoadError<Seq<char>> {
    match e {
        LoadError::Row(s) => LoadError::Row(s@),
        LoadError::MissingField => LoadError::MissingField,
        LoadError::Id => LoadError::Id,
        LoadError::Time(s) => LoadError::Time(s@),
        LoadError::NoFreeId => LoadError::NoFreeId,
    }
}

/// A timer as a row of the file gives it: its id, its description, and the seconds
/// and nanoseconds of its point in time.
pub type LoadedTimer = (u64, Seq<char>, (i64, u32));

/// The part of a timer that the file keeps.
pub open spec fn kept(t: TimerView) -> LoadedTimer {
    (t.id, t.description, (t.timestamp.seconds, t.timestamp.nanos))
}

/// The parts of the timers of a list that the file keeps.
pub open spec fn all_kept(timers: Seq<TimerView>) -> Seq<LoadedTimer> {
    timers.map_values(|t: TimerView| kept(t))
}

/// The timer that a row gives, or why it gives none.
pub open spec fn read_row(row: Result<Seq<Seq<char>>, Seq<char>>) -> Result<
    LoadedTimer,
    LoadError<Seq<char>>,
> {
    match row {
        Err(message) => Err(LoadError::Row(message)),
        Ok(fields) => if fields.len() < 1 {
            Err(LoadError::MissingField)
        } else {
            match text::number_up_to(fields[0], u64::MAX as nat) {
                None => Err(LoadError::Id),
                Some(id) => if fields.len() < 3 {
                    Err(LoadError::MissingField)
                } else {
                    match clock::rfc3339_instant(fields[2]) {
                        Err(message) => Err(LoadError::Time(message)),
                        Ok(instant) => Ok((id as u64, fields[1], instant)),
                    }
                },
            }
        },
    }
}

/// The timers that the rows give, or the first error among them.
pub open spec fn read_all(rows: Seq<Result<Seq<Seq<char>>, Seq<char>>>) -> Result<
    Seq<LoadedTimer>,
    LoadError<Seq<char>>,
>
    decreases rows.len(),
{
    if rows.len() == 0 {
        Ok(seq![])
    } else {
        match read_all(rows.drop_last()) {
            Err(e) => Err(e),
            Ok(timers) => match read_row(rows.last()) {
                Err(e) => Err(e),
                Ok(t) => Ok(timers.push(t)),
            },
        }
    }
}

/// The highest id among the timers, 0 if there are none.
pub open spec fn highest_id(timers: Seq<LoadedTimer>) -> u64
    decreases timers.len(),
{
    if timers.len() == 0 {
        0
    } else if timers.last().0 > highest_id(timers.drop_last()) {
        timers.last().0
    } else {
        highest_id(timers.drop_last())
    }
}

/// The timers that the rows of the file give, or why they cannot be taken over.
pub open spec fn loaded(rows: Seq<Result<Seq<Seq<char>>, Seq<char>>>) -> Result<
    Seq<LoadedTimer>,
    LoadError<Seq<char>>,
> {
    match read_all(rows) {
        Err(e) => Err(e),
        Ok(timers) => if highest_id(timers) == u64::MAX {
            Err(LoadError::NoFreeId)
        } else {
            Ok(timers)
        },
    }
}

/// The outcome of loading, with its texts as sequences of characters.
pub open spec fn load_view(r: Result<TimerStore, LoadError<String>>) -> Result<
    Seq<LoadedTimer>,
    LoadError<Seq<char>>,
> {
    match r {
        Ok(store) => Ok(all_kept(store@)),
        Err(e) => Err(load_error_view(e)),
    }
}

fn timer_from_row(row: &Row) -> (r: Result<Timer, LoadError<String>>)
    ensures
        match r {
            Ok(t) => {
                &&& read_row(table::row_view(*row)) == Ok::<LoadedTimer, LoadError<Seq<char>>>(
                    kept(t@),
                )
                &&& t.timestamp.valid()
            },
            Err(e) => read_row(table::row_view(*row)) == Err::<LoadedTimer, LoadError<Seq<char>>>(
                load_error_view(e),
            ),
        },
        (table::row_view(*row) matches Ok(fields) && fields.len() >= 3 && !(r matches Err(
            LoadError::Id,
        ))) ==> clock::text_reads_back(table::row_view(*row)->Ok_0[2]),
{
    match row {
        Err(message) => Err(LoadError::Row(message.clone())),
        Ok(fields) => {
            if fields.len() < 1 {
                return Err(LoadError::MissingField);
            }
            assert(text::texts(fields@)[0] == fields@[0]@);
            match text::parse_number(fields[0].as_str(), u64::MAX) {
                None => Err(LoadError::Id),
                Some(id) => {
                    if fields.len() < 3 {
                        return Err(LoadError::MissingField);
                    }
                    assert(text::texts(fields@)[1] == fields@[1]@);
                    assert(text::texts(fields@)[2] == fields@[2]@);
                    match clock::parse_time(fields[2].as_str()) {
                        Err(message) => Err(LoadError::Time(message)),
                        Ok(timestamp) => Ok(
                            Timer { id, description: fields[1].clone(), timestamp },
                        ),
                    }
                },
            }
        },
    }
}

/// Whether these rows are the rows of these timers, each of which can be printed in
/// full and leaves an id for the next.
pub open spec fn rows_of(
    rows: Seq<Result<Seq<Seq<char>>, Seq<char>>>,
    timers: Seq<TimerView>,
) -> bool {
    &&& all_printable(timers)
    &&& ids_below(timers, u64::MAX)
    &&& rows == table::all_read(timer_rows(timers))
}

proof fn row_of_timer_is_read(
    rows: Seq<Result<Seq<Seq<char>>, Seq<char>>>,
    timers: Seq<TimerView>,
    i: int,
)
    requires
        rows_of(rows, timers),
        0 <= i < rows.len(),
        clock::text_reads_back(timer_row(timers[i])[2]),
    ensures
        read_row(rows[i]) == Ok::<LoadedTimer, LoadError<Seq<char>>>(kept(timers[i])),
{
    let t = timers[i];
    assert(rows[i] == Ok::<Seq<Seq<char>>, Seq<char>>(timer_row(t)));
    text::decimal_reads_back(t.id as nat);
    assert(timers[i].timestamp.printable());
}

/// The highest id is the id of one of the timers, if there are any, and no other is higher.
pub proof fn highest_id_bounds(timers: Seq<LoadedTimer>)
    ensures
        forall|i: int| 0 <= i < timers.len() ==> (#[trigger] timers[i]).0 <= highest_id(timers),
        timers.len() > 0 ==> exists|i: int|
            0 <= i < timers.len() && (#[trigger] timers[i]).0 == highest_id(timers),
    decreases timers.len(),
{
    if timers.len() > 0 {
        let before = timers.drop_last();
        highest_id_bounds(before);
        assert(timers[timers.len() - 1] == timers.last());
        assert forall|i: int| 0 <= i < timers.len() implies (#[trigger] timers[i]).0 <= highest_id(
            timers,
        ) by {
            if i < before.len() {
                assert(before[i] == timers[i]);
            }
        }
        if timers.last().0 <= highest_id(before) {
            if before.len() > 0 {
                let i = choose|i: int|
                    0 <= i < before.len() && (#[trigger] before[i]).0 == highest_id(before);
                assert(timers[i].0 == highest_id(timers));
            }
        }
    }
}

/// The timers that the rows of the timers file give.
pub fn timers_from_rows(rows: &Vec<Row>) -> (r: Result<TimerStore, LoadError<String>>)
    ensures
        load_view(r) == loaded(table::rows_view(rows@)),
        r matches Ok(store) ==> {
            &&& store.well_formed()
            &&& store.next() == highest_id(all_kept(store@)) + 1
            &&& ids_below(store@, store.next())
        },
        forall|timers: Seq<TimerView>| #[trigger]
            rows_of(table::rows_view(rows@), timers) ==> load_view(r) == Ok::<
                Seq<LoadedTimer>,
                LoadError<Seq<char>>,
            >(all_kept(timers)),
{
    let ghost all = table::rows_view(rows@);
    let mut timers: Vec<Timer> = Vec::new();
    let mut max_id: u64 = 0;
    let mut i: usize = 0;
    proof {
        assert(all.take(0) =~= Seq::<Result<Seq<Seq<char>>, Seq<char>>>::empty());
        assert(all_kept(timer_views(timers@)) =~= Seq::<LoadedTimer>::empty());
        assert forall|ts: Seq<TimerView>| #[trigger] rows_of(all, ts) implies all_kept(
            timer_views(timers@),
        ) == all_kept(ts).take(0) by {
            assert(all_kept(ts).take(0) =~= Seq::<LoadedTimer>::empty());
        }
    }
    while i < rows.len()
        invariant
            i <= rows.len(),
            all == table::rows_view(rows@),
            read_all(all.take(i as int)) == Ok::<Seq<LoadedTimer>, LoadError<Seq<char>>>(
                all_kept(timer_views(timers@)),
            ),
            max_id == highest_id(all_kept(timer_views(timers@))),
            all_valid(timer_views(timers@)),
            forall|ts: Seq<TimerView>| #[trigger]
                rows_of(all, ts) ==> all_kept(timer_views(timers@)) == all_kept(ts).take(i as int),
        decreases rows.len() - i,
    {
        let ghost before = timers@;
        assert(all[i as int] == table::row_view(rows@[i as int]));
        proof {
            assert(all.take(i + 1).drop_last() =~= all.take(i as int));
            assert(all.take(i + 1).last() == all[i as int]);
        }
        match timer_from_row(&rows[i]) {
            Err(e) => {
                proof {
                    first_error_stays(all, i + 1);
                    assert forall|ts: Seq<TimerView>| #[trigger] rows_of(all, ts) implies false by {
                        assert(all[i as int] == Ok::<Seq<Seq<char>>, Seq<char>>(
                            timer_row(ts[i as int]),
                        ));
                        text::decimal_reads_back(ts[i as int].id as nat);
                        row_of_timer_is_read(all, ts, i as int);
                    }
                }
                return Err(e);
            },
            Ok(t) => {
                let ghost tv = t@;
                if t.id > max_id {
                    max_id = t.id;
                }
                timers.push(t);
                proof {
                    let kept_before = all_kept(timer_views(before));
                    let kept_after = all_kept(timer_views(timers@));
                    assert(kept_after =~= kept_before.push(kept(tv)));
                    assert(kept_after.drop_last() =~= kept_before);
                    assert(timer_views(timers@) =~= timer_views(before).push(tv));
                    assert forall|ts: Seq<TimerView>| #[trigger] rows_of(all, ts) implies kept_after
                        == all_kept(ts).take(i + 1) by {
                        assert(all[i as int] == Ok::<Seq<Seq<char>>, Seq<char>>(
                            timer_row(ts[i as int]),
                        ));
                        row_of_timer_is_read(all, ts, i as int);
                        assert(all_kept(ts).take(i + 1) =~= all_kept(ts).take(i as int).push(
                            all_kept(ts)[i as int],
                        ));
                    }
                }
            },
        }
        i = i + 1;
    }
    let ghost found = all_kept(timer_views(timers@));
    proof {
        assert(all.take(i as int) =~= all);
        highest_id_bounds(found);
        assert forall|ts: Seq<TimerView>| #[trigger] rows_of(all, ts) implies found == all_kept(ts)
            && max_id < u64::MAX by {
            assert(all_kept(ts).take(i as int) =~= all_kept(ts));
            if max_id == u64::MAX {
                let k = choose|k: int|
                    0 <= k < found.len() && (#[trigger] found[k]).0 == highest_id(found);
                assert(found[k] == kept(ts[k]));
                assert(ts[k].id < u64::MAX);
            }
        }
    }
    if max_id == u64::MAX {
        return Err(LoadError::NoFreeId);
    }
    let store = TimerStore { timers, next_id: max_id + 1 };
    proof {
        assert forall|k: int| 0 <= k < store@.len() implies (#[trigger] store@[k]).id
            < store.next() by {
            assert(found[k] == kept(store@[k]));
        }
    }
    Ok(store)
}

proof fn first_error_stays(rows: Seq<Result<Seq<Seq<char>>, Seq<char>>>, i: int)
    requires
        0 <= i <= rows.len(),
        read_all(rows.take(i)) is Err,
    ensures
        read_all(rows) == read_all(rows.take(i)),
    decreases rows.len() - i,
{
    if i < rows.len() {
        assert(rows.take(i + 1).drop_last() =~= rows.take(i));
        first_error_stays(rows, i + 1);
    } else {
        assert(rows.take(i) =~= rows);
    }
}

/// The timers that the bytes of the timers file give. Reading back what `save_timers`
/// gives for some timers, whose points in time are written in full, gives their ids,
/// descriptions and points in time, in the same order; the next id is one above the
/// highest of them.
pub fn load_timers(bytes: &[u8]) -> (r: Result<TimerStore, LoadError<String>>)
    ensures
        load_view(r) == loaded(table::csv_rows(bytes@)),
        r matches Ok(store) ==> {
            &&& store.well_formed()
            &&& store.next() == highest_id(all_kept(store@)) + 1
            &&& ids_below(store@, store.next())
        },
        forall|timers: Seq<TimerView>|
            all_printable(timers) && ids_below(timers, u64::MAX) && bytes@
                == vstd::utf8::encode_utf8(#[trigger] timers_file(timers)) ==> load_view(r) == Ok::<
                Seq<LoadedTimer>,
                LoadError<Seq<char>>,
            >(all_kept(timers)),
{
    let rows = table::read_rows(bytes);
    let r = timers_from_rows(&rows);
    proof {
        reveal_strlit("id");
        assert forall|timers: Seq<TimerView>|
            all_printable(timers) && ids_below(timers, u64::MAX) && bytes@
                == vstd::utf8::encode_utf8(#[trigger] timers_file(timers)) implies load_view(r)
            == Ok::<Seq<LoadedTimer>, LoadError<Seq<char>>>(all_kept(timers)) by {
            assert(timer_columns()[0][0] == 'i');
            assert(table::is_table(timer_columns(), timer_rows(timers)));
            assert(rows_of(table::rows_view(rows@), timers));
        }
    }
    r
}

// ---------------------------------------------------------------- setting and deleting

/// The timers that are set: their ids, descriptions and points in time.
pub fn get_timers(store: &TimerStore) -> (r: Vec<(u64, String, Timestamp)>)
    ensures
        r.len() == store@.len(),
        forall|i: int|
            0 <= i < r.len() ==> (#[trigger] r@[i]).0 == store@[i].id && r@[i].1@
                == store@[i].description && r@[i].2 == store@[i].timestamp,
{
    let mut out: Vec<(u64, String, Timestamp)> = Vec::new();
    let mut i: usize = 0;
    while i < store.timers.len()
        invariant
            i <= store.timers.len(),
            out.len() == i,
            forall|k: int|
                0 <= k < i ==> (#[trigger] out@[k]).0 == store@[k].id && out@[k].1@
                    == store@[k].description && out@[k].2 == store@[k].timestamp,
        decreases store.timers.len() - i,
    {
        let t = &store.timers[i];
        assert(store@[i as int] == t@);
        out.push((t.id, t.description.clone(), t.timestamp));
        i = i + 1;
    }
    out
}

/// Adds a timer with a description. Returns what the timers file holds from then on.
pub fn set_timer(store: &mut TimerStore, description: String, timer_time: Timestamp) -> (r: String)
    requires
        old(store).well_formed(),
        timer_time.valid(),
    ensures
        final(store).well_formed(),
        final(store)@ == old(store)@.push(
            TimerView {
                id: old(store).next(),
                description: description@,
                timestamp: timer_time,
            },
        ),
        final(store).next() == old(store).next().wrapping_add(1),
        old(store).unique_ids() && old(store).next() < u64::MAX ==> final(store).unique_ids(),
        r@ == timers_file(final(store)@),
{
    let id = store.next_id;
    store.next_id = store.next_id.wrapping_add(1);
    let ghost before = store.timers@;
    let t = Timer { id, description, timestamp: timer_time };
    let ghost tv = t@;
    store.timers.push(t);
    assert(store@ =~= timer_views(before).push(tv));
    proof {
        if old(store).unique_ids() && old(store).next() < u64::MAX {
            new_id_is_unused(*old(store), *store, tv);
        }
    }
    save_timers(store)
}

/// Setting a timer gives it an id that no other timer has, as long as ids are left, and
/// the ids stay distinct and below the next one.
pub proof fn new_id_is_unused(before: TimerStore, after: TimerStore, new: TimerView)
    requires
        before.unique_ids(),
        before.next() < u64::MAX,
        new.id == before.next(),
        after@ == before@.push(new),
        after.next() == before.next().wrapping_add(1),
    ensures
        !has_id(before@, new.id),
        after.unique_ids(),
{
    assert forall|i: int, j: int| 0 <= i < j < after@.len() implies (#[trigger] after@[i]).id != (
    #[trigger] after@[j]).id by {
        if j == before@.len() {
            assert(before@[i].id < before.next());
        } else {
            assert(before@[i].id != before@[j].id);
        }
    }
}

/// The timers of a list that do not have this id.
pub open spec fn without_id(timers: Seq<TimerView>, id: u64) -> Seq<TimerView> {
    timers.filter(|t: TimerView| t.id != id)
}

/// Whether a timer of a list has this id.
pub open spec fn has_id(timers: Seq<TimerView>, id: u64) -> bool {
    exists|i: int| 0 <= i < timers.len() && (#[trigger] timers[i]).id == id
}

proof fn filter_is_part(timers: Seq<TimerView>, keep: spec_fn(TimerView) -> bool)
    ensures
        forall|i: int|
            0 <= i < timers.filter(keep).len() ==> timers.contains(#[trigger] timers.filter(keep)[i]),
    decreases timers.len(),
{
    reveal_with_fuel(Seq::filter, 1);
    if timers.len() > 0 {
        let before = timers.drop_last();
        filter_is_part(before, keep);
        assert forall|i: int| 0 <= i < timers.filter(keep).len() implies timers.contains(
            #[trigger] timers.filter(keep)[i],
        ) by {
            if i < before.filter(keep).len() {
                let t = before.filter(keep)[i];
                assert(before.contains(t));
                let k = choose|k: int| 0 <= k < before.len() && before[k] == t;
                assert(timers[k] == t);
                assert(timers.filter(keep)[i] == t);
            } else {
                assert(timers[timers.len() - 1] == timers.last());
            }
        }
    }
}

proof fn filter_keeps_ids(timers: Seq<TimerView>, keep: spec_fn(TimerView) -> bool, next: u64)
    requires
        ids_distinct(timers),
        ids_below(timers, next),
    ensures
        ids_distinct(timers.filter(keep)),
        ids_below(timers.filter(keep), next),
    decreases timers.len(),
{
    reveal_with_fuel(Seq::filter, 1);
    if timers.len() > 0 {
        let before = timers.drop_last();
        let last = timers.last();
        assert(timers[timers.len() - 1] == last);
        assert forall|i: int, j: int| 0 <= i < j < before.len() implies (#[trigger] before[i]).id
            != (#[trigger] before[j]).id by {
            assert(timers[i].id != timers[j].id);
        }
        assert forall|i: int| 0 <= i < before.len() implies (#[trigger] before[i]).id < next by {
            assert(timers[i].id < next);
        }
        filter_keeps_ids(before, keep, next);
        filter_is_part(before, keep);
        let rest = before.filter(keep);
        assert forall|i: int| 0 <= i < rest.len() implies (#[trigger] rest[i]).id != last.id by {
            assert(before.contains(rest[i]));
            let k = choose|k: int| 0 <= k < before.len() && before[k] == rest[i];
            assert(timers[k].id != timers[timers.len() - 1].id);
        }
    }
}

/// Deleting timers keeps the ids distinct and below the next one.
pub proof fn delete_keeps_ids(timers: Seq<TimerView>, id: u64, next: u64)
    requires
        ids_distinct(timers),
        ids_below(timers, next),
    ensures
        ids_distinct(without_id(timers, id)),
        ids_below(without_id(timers, id), next),
        !has_id(without_id(timers, id), id),
{
    broadcast use vstd::seq_lib::group_filter_ensures;

    filter_keeps_ids(timers, |t: TimerView| t.id != id, next);
}

/// Checking for timers that have gone off keeps the ids distinct and below the next one,
/// of those that are kept and of those that are handed out.
pub proof fn check_keeps_ids(timers: Seq<TimerView>, now: Timestamp, next: u64)
    requires
        ids_distinct(timers),
        ids_below(timers, next),
    ensures
        ids_distinct(pending(timers, now)),
        ids_below(pending(timers, now), next),
        ids_distinct(expired(timers, now)),
        ids_below(expired(timers, now), next),
{
    filter_keeps_ids(timers, |t: TimerView| !t.timestamp.is_by(now), next);
    filter_keeps_ids(timers, |t: TimerView| t.timestamp.is_by(now), next);
}

/// Timers that are read back from their file have distinct ids, below the next one, if
/// they had when they were saved.
pub proof fn reading_back_keeps_ids(saved: Seq<TimerView>, store: TimerStore)
    requires
        ids_distinct(saved),
        all_kept(store@) == all_kept(saved),
        store.next() == highest_id(all_kept(saved)) + 1,
    ensures
        store.unique_ids(),
{
    let found = all_kept(saved);
    highest_id_bounds(found);
    assert(store@.len() == found.len());
    assert forall|i: int| 0 <= i < store@.len() implies (#[trigger] store@[i]).id
        < store.next() by {
        assert(found[i] == kept(store@[i]));
    }
    assert forall|i: int, j: int| 0 <= i < j < store@.len() implies (#[trigger] store@[i]).id != (
    #[trigger] store@[j]).id by {
        assert(found[i] == kept(store@[i]) && found[i] == kept(saved[i]));
        assert(found[j] == kept(store@[j]) && found[j] == kept(saved[j]));
        assert(saved[i].id != saved[j].id);
    }
}

/// Deletes a timer by its id. Returns what the timers file holds from then on, or
/// the message that there is no timer with this id.
pub fn delete_timer(store: &mut TimerStore, id: u64) -> (r: Result<String, String>)
    requires
        old(store).well_formed(),
    ensures
        final(store).well_formed(),
        final(store).next() == old(store).next(),
        old(store).unique_ids() ==> final(store).unique_ids(),
        final(store)@ == without_id(old(store)@, id),
        r is Ok <==> has_id(old(store)@, id),
        r matches Ok(file) ==> file@ == timers_file(final(store)@),
        r matches Err(message) ==> message@ == "Timer with ID "@ + text::decimal(id as nat)
            + " not found"@ && final(store)@ == old(store)@,
{
    let ghost pred = |t: TimerView| t.id != id;
    let ghost all = store@;
    let mut rest: Vec<Timer> = Vec::new();
    let mut found = false;
    let mut i: usize = 0;
    proof {
        reveal_with_fuel(Seq::filter, 1);
        assert(all.take(0).filter(pred) =~= Seq::<TimerView>::empty());
        assert(timer_views(rest@) =~= Seq::<TimerView>::empty());
        assert(all.take(0) =~= Seq::<TimerView>::empty());
    }
    while i < store.timers.len()
        invariant
            i <= store.timers.len(),
            all == store@,
            *store == *old(store),
            all_valid(all),
            pred == |t: TimerView| t.id != id,
            timer_views(rest@) == all.take(i as int).filter(pred),
            all_valid(timer_views(rest@)),
            found <==> exists|k: int| 0 <= k < i && (#[trigger] all[k]).id == id,
            !found ==> timer_views(rest@) == all.take(i as int),
        decreases store.timers.len() - i,
    {
        let t = &store.timers[i];
        let ghost before = rest@;
        assert(all[i as int] == t@);
        proof {
            reveal_with_fuel(Seq::filter, 1);
            assert(all.take(i + 1).drop_last() =~= all.take(i as int));
            assert(all.take(i + 1).last() == t@);
        }
        if t.id != id {
            rest.push(copy_timer(t));
            assert(timer_views(rest@) =~= timer_views(before).push(t@));
            assert(all.take(i + 1) =~= all.take(i as int).push(t@));
        } else {
            found = true;
        }
        i = i + 1;
    }
    assert(all.take(i as int) =~= all);
    store.timers = rest;
    proof {
        if old(store).unique_ids() {
            delete_keeps_ids(all, id, old(store).next());
        }
    }
    if found {
        Ok(save_timers(store))
    } else {
        let mut message = "Timer with ID ".to_owned();
        message.append(text::decimal_text(id).as_str());
        message.append(" not found");
        Err(message)
    }
}

/// Deleting a timer that was just set gives the timers that were there before.
pub proof fn set_then_delete(timers: Seq<TimerView>, new: TimerView)
    requires
        ids_below(timers, new.id),
    ensures
        without_id(timers.push(new), new.id) == timers,
{
    let pred = |t: TimerView| t.id != new.id;
    reveal_with_fuel(Seq::filter, 1);
    assert(timers.push(new).drop_last() =~= timers);
    filter_all(timers, new.id);
}

proof fn filter_all(timers: Seq<TimerView>, id: u64)
    requires
        ids_below(timers, id),
    ensures
        without_id(timers, id) == timers,
    decreases timers.len(),
{
    reveal_with_fuel(Seq::filter, 1);
    if timers.len() > 0 {
        let before = timers.drop_last();
        assert forall|i: int| 0 <= i < before.len() implies (#[trigger] before[i]).id < id by {
            assert(timers[i].id < id);
        }
        filter_all(before, id);
        assert(timers[timers.len() - 1].id < id);
        assert(before.push(timers.last()) =~= timers);
    } else {
        assert(without_id(timers, id) =~= timers);
    }
}

/// The timers of a list that have gone off by `now`.
pub open spec fn expired(timers: Seq<TimerView>, now: Timestamp) -> Seq<TimerView> {
    timers.filter(|t: TimerView| t.timestamp.is_by(now))
}

/// The timers of a list that have yet to go off after `now`.
pub open spec fn pending(timers: Seq<TimerView>, now: Timestamp) -> Seq<TimerView> {
    timers.filter(|t: TimerView| !t.timestamp.is_by(now))
}

/// Takes out the timers that have gone off by `now`. Returns them, and what the
/// timers file holds from then on if there are any.
pub fn check_timers(store: &mut TimerStore, now: &Timestamp) -> (r: (Vec<Timer>, Option<String>))
    requires
        old(store).well_formed(),
    ensures
        final(store).well_formed(),
        final(store).next() == old(store).next(),
        old(store).unique_ids() ==> final(store).unique_ids(),
        final(store)@ == pending(old(store)@, *now),
        timer_views(r.0@) == expired(old(store)@, *now),
        text::optional(r.1) == (if r.0@.len() > 0 {
            Some(timers_file(final(store)@))
        } else {
            None
        }),
{
    let ghost all = store@;
    let ghost off = |t: TimerView| t.timestamp.is_by(*now);
    let ghost on = |t: TimerView| !t.timestamp.is_by(*now);
    let mut rest: Vec<Timer> = Vec::new();
    let mut gone: Vec<Timer> = Vec::new();
    let mut i: usize = 0;
    proof {
        reveal_with_fuel(Seq::filter, 1);
        assert(all.take(0).filter(off) =~= Seq::<TimerView>::empty());
        assert(all.take(0).filter(on) =~= Seq::<TimerView>::empty());
        assert(timer_views(rest@) =~= Seq::<TimerView>::empty());
        assert(timer_views(gone@) =~= Seq::<TimerView>::empty());
    }
    while i < store.timers.len()
        invariant
            i <= store.timers.len(),
            all == store@,
            *store == *old(store),
            all_valid(all),
            off == |t: TimerView| t.timestamp.is_by(*now),
            on == |t: TimerView| !t.timestamp.is_by(*now),
            timer_views(rest@) == all.take(i as int).filter(on),
            timer_views(gone@) == all.take(i as int).filter(off),
            all_valid(timer_views(rest@)),
        decreases store.timers.len() - i,
    {
        let t = &store.timers[i];
        let ghost rest_before = rest@;
        let ghost gone_before = gone@;
        assert(all[i as int] == t@);
        proof {
            reveal_with_fuel(Seq::filter, 1);
            assert(all.take(i + 1).drop_last() =~= all.take(i as int));
            assert(all.take(i + 1).last() == t@);
        }
        if t.timestamp.not_after(now) {
            gone.push(copy_timer(t));
            assert(timer_views(gone@) =~= timer_views(gone_before).push(t@));
        } else {
            rest.push(copy_timer(t));
            assert(timer_views(rest@) =~= timer_views(rest_before).push(t@));
        }
        i = i + 1;
    }
    assert(all.take(i as int) =~= all);
    store.timers = rest;
    proof {
        if old(store).unique_ids() {
            check_keeps_ids(all, *now, old(store).next());
        }
    }
    if gone.len() > 0 {
        let file = save_timers(store);
        (gone, Some(file))
    } else {
        (gone, None)
    }
}

/// Takes out the timers that have gone off by the present. Returns them, and what the
/// timers file holds from then on if there are any.
pub fn check_timers_now(store: &mut TimerStore) -> (r: (Vec<Timer>, Option<String>))
    requires
        old(store).well_formed(),
    ensures
        final(store).well_formed(),
        final(store).next() == old(store).next(),
        old(store).unique_ids() ==> final(store).unique_ids(),
        exists|now: Timestamp|
            {
                &&& #[trigger] now.valid()
                &&& final(store)@ == pending(old(store)@, now)
                &&& timer_views(r.0@) == expired(old(store)@, now)
            },
        text::optional(r.1) == (if r.0@.len() > 0 {
            Some(timers_file(final(store)@))
        } else {
            None
        }),
{
    let now = clock::local_now();
    check_timers(store, &now)
}

/// Checking takes no timer away but those that have gone off: every timer is either
/// handed out or kept, and never both.
pub proof fn check_splits(timers: Seq<TimerView>, now: Timestamp)
    ensures
        expired(timers, now).to_multiset().add(pending(timers, now).to_multiset())
            == timers.to_multiset(),
        forall|i: int|
            0 <= i < expired(timers, now).len() ==> (#[trigger] expired(
                timers,
                now,
            )[i]).timestamp.is_by(now),
        forall|i: int|
            0 <= i < pending(timers, now).len() ==> !(#[trigger] pending(
                timers,
                now,
            )[i]).timestamp.is_by(now),
    decreases timers.len(),
{
    broadcast use vstd::seq_lib::group_to_multiset_ensures;

    let off = |t: TimerView| t.timestamp.is_by(now);
    let on = |t: TimerView| !t.timestamp.is_by(now);
    reveal_with_fuel(Seq::filter, 1);
    if timers.len() > 0 {
        let before = timers.drop_last();
        let last = timers.last();
        check_splits(before, now);
        assert(before.push(last) =~= timers);
        vstd::seq_lib::to_multiset_build(before, last);
        if last.timestamp.is_by(now) {
            vstd::seq_lib::to_multiset_build(expired(before, now), last);
            assert(expired(before, now).push(last) == expired(timers, now));
        } else {
            vstd::seq_lib::to_multiset_build(pending(before, now), last);
            assert(pending(before, now).push(last) == pending(timers, now));
        }
        assert(expired(timers, now).to_multiset().add(pending(timers, now).to_multiset())
            =~= timers.to_multiset());
    } else {
        assert(expired(timers, now) =~= timers);
        assert(pending(timers, now) =~= timers);
        assert(expired(timers, now).to_multiset().add(pending(timers, now).to_multiset())
            =~= timers.to_multiset());
    }
}

// ---------------------------------------------------------------- reports

/// How a timer is told of: its id, its description and its point in time.
pub open spec fn timer_text(t: TimerView) -> Seq<char> {
    "Timer_ID: \""@ + text::decimal(t.id as nat) + "\" Timer_description: \""@ + t.description
        + "\" goes off at time: \""@ + clock::rfc3339_text(
        t.timestamp.seconds,
        t.timestamp.nanos,
        t.timestamp.offset,
    ) + "\""@
}

/// How long it takes from `now` until `then`, in words, in whole seconds.
pub open spec fn time_left(now: Timestamp, then: Timestamp) -> Seq<char> {
    clock::duration_words(clock::seconds_between(now, then), 0)
}

/// The line of a timer in the report on the timers that are set.
pub open spec fn timer_line(t: TimerView, now: Timestamp) -> Seq<char> {
    timer_text(t) + " which is \""@ + time_left(now, t.timestamp) + "\" from now.\n"@
}

/// The lines of the timers of a list.
pub open spec fn timer_lines(timers: Seq<TimerView>, now: Timestamp) -> Seq<char>
    decreases timers.len(),
{
    if timers.len() == 0 {
        seq![]
    } else {
        timer_lines(timers.drop_last(), now) + timer_line(timers.last(), now)
    }
}

/// Tells of a timer: its id, its description and its point in time.
pub fn describe_timer(t: &Timer) -> (r: String)
    requires
        t.timestamp.valid(),
    ensures
        r@ == timer_text(t@),
{
    let mut out = "Timer_ID: \"".to_owned();
    out.append(text::decimal_text(t.id).as_str());
    out.append("\" Timer_description: \"");
    out.append(t.description.as_str());
    out.append("\" goes off at time: \"");
    out.append(clock::print_time(&t.timestamp).as_str());
    out.append("\"");
    out
}

/// Tells how long it takes from `now` until `then`, in whole seconds. What is past takes no
/// time at all.
pub fn describe_time_left(now: &Timestamp, then: &Timestamp) -> (r: String)
    requires
        now.valid(),
        then.valid(),
    ensures
        r@ == time_left(*now, *then),
        then.is_by(*now) ==> r@ == "0s"@,
{
    let seconds = clock::seconds_from(now, then);
    clock::duration_text(seconds, 0)
}

/// Tells of all timers that are set, each with the time left until it goes off.
pub fn check_on_timers(store: &TimerStore, now: &Timestamp) -> (r: String)
    requires
        store.well_formed(),
        now.valid(),
    ensures
        r@ == "=== Timers ===\n"@ + timer_lines(store@, *now),
{
    let mut out = "=== Timers ===\n".to_owned();
    let ghost header = out@;
    let mut i: usize = 0;
    proof {
        assert(store@.take(0) =~= Seq::<TimerView>::empty());
        assert(header + Seq::<char>::empty() =~= header);
    }
    while i < store.timers.len()
        invariant
            i <= store.timers.len(),
            store.well_formed(),
            now.valid(),
            header == "=== Timers ===\n"@,
            out@ == header + timer_lines(store@.take(i as int), *now),
        decreases store.timers.len() - i,
    {
        let t = &store.timers[i];
        assert(store@[i as int] == t@);
        let mut line = describe_timer(t);
        line.append(" which is \"");
        line.append(describe_time_left(now, &t.timestamp).as_str());
        line.append("\" from now.\n");
        out.append(line.as_str());
        proof {
            assert(store@.take(i + 1).drop_last() =~= store@.take(i as int));
            assert(store@.take(i + 1).last() == t@);
            assert((header + timer_lines(store@.take(i as int), *now)) + line@ =~= header + (
            timer_lines(store@.take(i as int), *now) + line@));
        }
        i = i + 1;
    }
    assert(store@.take(i as int) =~= store@);
    out
}

/// Tells of all timers that are set, each with the time left from the present until it
/// goes off.
pub fn check_on_timers_now(store: &TimerStore) -> (r: String)
    requires
        store.well_formed(),
    ensures
        exists|now: Timestamp| #[trigger]
            now.valid() && r@ == "=== Timers ===\n"@ + timer_lines(store@, now),
{
    let now = clock::local_now();
    check_on_timers(store, &now)
}

// ---------------------------------------------------------------- the alarm

/// What the alarm does next.
pub enum AlarmStep {
    /// Go on with the sound that plays.
    Wait,
    /// Start the sound again.
    PlayAgain,
    /// Stop the sound.
    Silence,
}

/// The alarm that rings when timers have gone off.
pub struct AudibleTimers {
    /// Someone asked to stop the alarm since the timers were last looked at.
    pub stop_requested: bool,
    /// The alarm rings.
    pub ringing: bool,
    /// The timers could not be checked the last time, and that was logged.
    pub error_logged: bool,
}

/// The alarm after a look at its sound, and what it does next.
pub open spec fn alarm_polled(a: AudibleTimers, sound_ended: bool) -> (AudibleTimers, AlarmStep) {
    if a.stop_requested {
        (AudibleTimers { stop_requested: false, ringing: false, ..a }, AlarmStep::Silence)
    } else if sound_ended {
        (a, AlarmStep::PlayAgain)
    } else {
        (a, AlarmStep::Wait)
    }
}

impl AudibleTimers {
    /// An alarm that is silent.
    pub fn new() -> (r: Self)
        ensures
            r == (AudibleTimers { stop_requested: false, ringing: false, error_logged: false }),
    {
        AudibleTimers { stop_requested: false, ringing: false, error_logged: false }
    }

    /// Asks the alarm to stop.
    pub fn stop_alarm(&mut self)
        ensures
            *final(self) == (AudibleTimers { stop_requested: true, ..*old(self) }),
    {
        self.stop_requested = true;
    }

    /// Forgets that someone asked to stop the alarm, before the timers are checked again.
    pub fn start_round(&mut self)
        ensures
            *final(self) == (AudibleTimers { stop_requested: false, ..*old(self) }),
    {
        self.stop_requested = false;
    }

    /// Takes the outcome of a check of the timers. The alarm rings if some have gone
    /// off. Returns them, and what is to be logged: the first of a row of errors.
    pub fn timers_checked(&mut self, checked: Result<Vec<Timer>, String>) -> (r: (
        Vec<Timer>,
        Option<String>,
    ))
        ensures
            final(self).stop_requested == old(self).stop_requested,
            final(self).error_logged == checked is Err,
            final(self).ringing == (r.0@.len() > 0),
            timer_views(r.0@) == (match checked {
                Ok(timers) => timer_views(timers@),
                Err(_) => Seq::<TimerView>::empty(),
            }),
            r.1 is Some <==> checked is Err && !old(self).error_logged,
            checked is Err ==> r.0@.len() == 0 && !final(self).ringing,
            checked matches Ok(timers) ==> r.0@.len() == timers@.len(),
            text::optional(r.1) == (match checked {
                Err(message) if !old(self).error_logged => Some(
                    "Error checking timers: "@ + message@,
                ),
                _ => None,
            }),
    {
        match checked {
            Ok(timers) => {
                self.error_logged = false;
                self.ringing = timers.len() > 0;
                (timers, None)
            },
            Err(message) => {
                let mut warning: Option<String> = None;
                if !self.error_logged {
                    let mut text = "Error checking timers: ".to_owned();
                    text.append(message.as_str());
                    warning = Some(text);
                    self.error_logged = true;
                }
                self.ringing = false;
                let none: Vec<Timer> = Vec::new();
                assert(timer_views(none@) =~= Seq::<TimerView>::empty());
                (none, warning)
            },
        }
    }

    /// Takes whether the sound of the alarm could be opened: without it the alarm is silent.
    pub fn sound_opened(&mut self, opened: bool)
        ensures
            *final(self) == (AudibleTimers { ringing: old(self).ringing && opened, ..*old(self) }),
    {
        if !opened {
            self.ringing = false;
        }
    }

    /// Looks at the sound of a ringing alarm.
    pub fn poll(&mut self, sound_ended: bool) -> (r: AlarmStep)
        requires
            old(self).ringing,
        ensures
            (*final(self), r) == alarm_polled(*old(self), sound_ended),
    {
        if self.stop_requested {
            self.stop_requested = false;
            self.ringing = false;
            AlarmStep::Silence
        } else if sound_ended {
            AlarmStep::PlayAgain
        } else {
            AlarmStep::Wait
        }
    }
}

/// The alarm after several looks at its sound.
pub open spec fn alarm_after(a: AudibleTimers, sounds_ended: Seq<bool>) -> AudibleTimers
    decreases sounds_ended.len(),
{
    if sounds_ended.len() == 0 {
        a
    } else {
        alarm_polled(alarm_after(a, sounds_ended.drop_last()), sounds_ended.last()).0
    }
}

/// A ringing alarm rings until someone asks it to stop, however often its sound ends.
pub proof fn alarm_rings_on(a: AudibleTimers, sounds_ended: Seq<bool>)
    requires
        a.ringing,
        !a.stop_requested,
    ensures
        alarm_after(a, sounds_ended) == a,
    decreases sounds_ended.len(),
{
    if sounds_ended.len() > 0 {
        alarm_rings_on(a, sounds_ended.drop_last());
    }
}

/// An alarm that was asked to stop is silent after the next look at its sound.
pub proof fn alarm_stops(a: AudibleTimers, sound_ended: bool)
    ensures
        ({
            let asked = AudibleTimers { stop_requested: true, ..a };
            let (after, step) = alarm_polled(asked, sound_ended);
            !after.ringing && step is Silence
        }),
{
}

// ---------------------------------------------------------------- the stopwatch

/// The longest time that the stopwatch can show, in nanoseconds.
pub const LONGEST: u128 = 18_446_744_073_709_551_615_999_999_999;

/// A stopwatch. Times are counted in nanoseconds.
pub struct Stopwatch {
    /// When it was started, if it runs.
    pub started: Option<u128>,
    /// The time that it had run for when it was last stopped.
    pub recorded: u128,
}

/// The time from `start` until `now`, none if `now` is not later.
pub open spec fn elapsed(start: u128, now: u128) -> u128 {
    if now > start {
        (now - start) as u128
    } else {
        0
    }
}

/// The time that a stopwatch shows at `now`.
pub open spec fn shown(sw: Stopwatch, now: u128) -> int {
    match sw.started {
        Some(start) => sw.recorded + elapsed(start, now),
        None => sw.recorded as int,
    }
}

/// A stopwatch after it was started at `now`.
pub open spec fn started_at(sw: Stopwatch, now: u128) -> Stopwatch {
    if sw.started is Some {
        sw
    } else {
        Stopwatch { started: Some(now), recorded: sw.recorded }
    }
}

/// A stopwatch after it was stopped at `now`.
pub open spec fn stopped_at(sw: Stopwatch, now: u128) -> Stopwatch {
    Stopwatch { started: None, recorded: shown(sw, now) as u128 }
}

/// A time in words.
pub open spec fn nanos_words(nanos: int) -> Seq<char> {
    clock::duration_words((nanos / 1_000_000_000) as u64, (nanos % 1_000_000_000) as u32)
}

fn nanos_text(nanos: u128) -> (r: String)
    requires
        nanos <= LONGEST,
    ensures
        r@ == nanos_words(nanos as int),
{
    clock::duration_text((nanos / 1_000_000_000) as u64, (nanos % 1_000_000_000) as u32)
}

fn time_since(start: u128, now: u128) -> (r: u128)
    ensures
        r == elapsed(start, now),
{
    if now > start {
        now - start
    } else {
        0
    }
}

/// Starts the stopwatch. If already running, this does nothing.
/// If paused, it resumes from where it left off.
pub fn start_stopwatch(sw: &mut Stopwatch, now: u128) -> (r: String)
    ensures
        *final(sw) == started_at(*old(sw), now),
        r@ == (if old(sw).started is Some {
            "Stopwatch is already running."@
        } else if old(sw).recorded == 0 {
            "Stopwatch started."@
        } else {
            "Stopwatch resumed."@
        }),
{
    if sw.started.is_some() {
        "Stopwatch is already running.".to_owned()
    } else {
        sw.started = Some(now);
        if sw.recorded == 0 {
            "Stopwatch started.".to_owned()
        } else {
            "Stopwatch resumed.".to_owned()
        }
    }
}

/// Stops (pauses) the stopwatch and returns the elapsed time.
pub fn stop_stopwatch(sw: &mut Stopwatch, now: u128) -> (r: String)
    requires
        shown(*old(sw), now) <= LONGEST,
    ensures
        *final(sw) == stopped_at(*old(sw), now),
        r@ == (if old(sw).started is Some {
            "Stopwatch stopped. Total elapsed time: "@ + nanos_words(shown(*old(sw), now))
        } else if old(sw).recorded == 0 {
            "Stopwatch is not running and has no recorded time."@
        } else {
            "Stopwatch is already stopped. Total elapsed time: "@ + nanos_words(
                shown(*old(sw), now),
            )
        }),
{
    match sw.started {
        Some(start) => {
            sw.recorded = sw.recorded + time_since(start, now);
            sw.started = None;
            let mut out = "Stopwatch stopped. Total elapsed time: ".to_owned();
            out.append(nanos_text(sw.recorded).as_str());
            out
        },
        None => {
            if sw.recorded == 0 {
                "Stopwatch is not running and has no recorded time.".to_owned()
            } else {
                let mut out = "Stopwatch is already stopped. Total elapsed time: ".to_owned();
                out.append(nanos_text(sw.recorded).as_str());
                out
            }
        },
    }
}

/// Returns the current elapsed time without stopping the stopwatch.
pub fn check_stopwatch(sw: &Stopwatch, now: u128) -> (r: String)
    requires
        shown(*sw, now) <= LONGEST,
    ensures
        r@ == (if sw.started is None && sw.recorded == 0 {
            "Stopwatch has not been started yet."@
        } else {
            "Stopwatch is "@ + (if sw.started is Some {
                "running"@
            } else {
                "stopped"@
            }) + ". Elapsed time: "@ + nanos_words(shown(*sw, now))
        }),
{
    let total: u128 = match sw.started {
        Some(start) => sw.recorded + time_since(start, now),
        None => sw.recorded,
    };
    if sw.started.is_none() && sw.recorded == 0 {
        "Stopwatch has not been started yet.".to_owned()
    } else {
        let mut out = "Stopwatch is ".to_owned();
        if sw.started.is_some() {
            out.append("running");
        } else {
            out.append("stopped");
        }
        out.append(". Elapsed time: ");
        out.append(nanos_text(total).as_str());
        out
    }
}

/// Resets the stopwatch to zero and stops it if running.
pub fn reset_stopwatch(sw: &mut Stopwatch) -> (r: String)
    ensures
        *final(sw) == (Stopwatch { started: None, recorded: 0 }),
        r@ == "Stopwatch has been reset to zero."@,
{
    sw.started = None;
    sw.recorded = 0;
    "Stopwatch has been reset to zero.".to_owned()
}

/// The stopwatch counts the time that it runs and no other: stopped at `stop` and
/// started again at `again`, it shows at `now` what it showed at `stop` and the time
/// since `again`.
pub proof fn paused_time_is_not_counted(sw: Stopwatch, stop: u128, again: u128, now: u128)
    requires
        shown(sw, stop) <= LONGEST,
    ensures
        ({
            let stopped = stopped_at(sw, stop);
            let resumed = started_at(stopped, again);
            &&& shown(stopped, again) == shown(sw, stop)
            &&& shown(resumed, now) == shown(sw, stop) + elapsed(again, now)
        }),
{
}

/// Two runs after a reset add up: the time between them is not counted, neither in what is
/// shown nor in what is kept.
pub proof fn two_runs_add_up(t0: u128, t1: u128, t2: u128, t3: u128)
    requires
        t0 <= t1 <= t2 <= t3,
    ensures
        ({
            let reset = Stopwatch { started: None, recorded: 0 };
            let paused = stopped_at(started_at(reset, t0), t1);
            let resumed = started_at(paused, t2);
            &&& paused.recorded == t1 - t0
            &&& shown(resumed, t3) == (t1 - t0) + (t3 - t2)
            &&& stopped_at(resumed, t3) == (Stopwatch {
                started: None,
                recorded: ((t1 - t0) + (t3 - t2)) as u128,
            })
        }),
{
}

// ---------------------------------------------------------------- laws of the timers

/// Whether a timer's time has come: its seconds are fewer than those of `now`, or as many and
/// its nanoseconds are no more.
pub open spec fn has_come(t: TimerView, now: Timestamp) -> bool {
    t.timestamp.seconds < now.seconds || (t.timestamp.seconds == now.seconds && t.timestamp.nanos
        <= now.nanos)
}

/// A check hands out the timers whose time has come, all of them and no others, and keeps the
/// others, each as often as it was set.
pub proof fn timers_go_off_when_their_time_has_come(
    timers: Seq<TimerView>,
    now: Timestamp,
    t: TimerView,
)
    ensures
        expired(timers, now).contains(t) <==> timers.contains(t) && has_come(t, now),
        pending(timers, now).contains(t) <==> timers.contains(t) && !has_come(t, now),
        expired(timers, now).len() + pending(timers, now).len() == timers.len(),
    decreases timers.len(),
{
    reveal_with_fuel(Seq::filter, 1);
    if timers.len() > 0 {
        let before = timers.drop_last();
        let last = timers.last();
        timers_go_off_when_their_time_has_come(before, now, t);
        assert(before.push(last) =~= timers);
        push_contains(before, last, t);
        push_contains(expired(before, now), last, t);
        push_contains(pending(before, now), last, t);
    } else {
        assert(expired(timers, now) =~= timers);
        assert(pending(timers, now) =~= timers);
    }
}

proof fn push_contains(timers: Seq<TimerView>, last: TimerView, t: TimerView)
    ensures
        timers.push(last).contains(t) <==> timers.contains(t) || t == last,
{
    let all = timers.push(last);
    if timers.contains(t) {
        let k = choose|k: int| 0 <= k < timers.len() && timers[k] == t;
        assert(all[k] == t);
    }
    if t == last {
        assert(all[timers.len() as int] == t);
    }
    if all.contains(t) {
        let k = choose|k: int| 0 <= k < all.len() && all[k] == t;
        if k < timers.len() {
            assert(timers[k] == t);
        }
    }
}

/// A timer that goes off at some time goes off at every later time too, and one that does not
/// at some time did not at any earlier one.
pub proof fn timers_stay_gone_off(
    timers: Seq<TimerView>,
    now: Timestamp,
    later: Timestamp,
    t: TimerView,
)
    requires
        now.seconds < later.seconds || (now.seconds == later.seconds && now.nanos <= later.nanos),
    ensures
        expired(timers, now).contains(t) ==> expired(timers, later).contains(t),
        pending(timers, later).contains(t) ==> pending(timers, now).contains(t),
{
    timers_go_off_when_their_time_has_come(timers, now, t);
    timers_go_off_when_their_time_has_come(timers, later, t);
}

/// A timer that goes off has no whole second left, and one that does not, and whose time is two
/// seconds or more ahead by the seconds alone, has; without leap seconds.
pub proof fn no_time_is_left_when_a_timer_goes_off(
    timers: Seq<TimerView>,
    now: Timestamp,
    t: TimerView,
)
    requires
        now.valid() && t.timestamp.valid(),
        now.nanos < 1_000_000_000 && t.timestamp.nanos < 1_000_000_000,
    ensures
        expired(timers, now).contains(t) ==> clock::seconds_between(now, t.timestamp) == 0,
        pending(timers, now).contains(t) && t.timestamp.seconds >= now.seconds + 2
            ==> clock::seconds_between(now, t.timestamp) > 0,
{
    timers_go_off_when_their_time_has_come(timers, now, t);
}

/// Two checks, one after the other, hand out what one check at the later time does, and keep
/// what it keeps.
pub proof fn two_checks_are_one(timers: Seq<TimerView>, now: Timestamp, later: Timestamp)
    requires
        now.seconds < later.seconds || (now.seconds == later.seconds && now.nanos <= later.nanos),
    ensures
        pending(pending(timers, now), later) == pending(timers, later),
    decreases timers.len(),
{
    reveal_with_fuel(Seq::filter, 1);
    if timers.len() > 0 {
        let before = timers.drop_last();
        let last = timers.last();
        two_checks_are_one(before, now, later);
        let rest = pending(before, now);
        assert(rest.push(last).drop_last() =~= rest);
        assert(rest.push(last).last() == last);
    } else {
        assert(pending(timers, now) =~= timers);
    }
}

/// Deleting by an id takes out the timers with this id, all of them and no others.
pub proof fn delete_takes_out_the_timer(timers: Seq<TimerView>, id: u64, t: TimerView)
    ensures
        without_id(timers, id).contains(t) <==> timers.contains(t) && t.id != id,
        has_id(timers, id) <==> exists|k: int| 0 <= k < timers.len() && #[trigger] timers[k].id
            == id,
    decreases timers.len(),
{
    reveal_with_fuel(Seq::filter, 1);
    if timers.len() > 0 {
        let before = timers.drop_last();
        let last = timers.last();
        delete_takes_out_the_timer(before, id, t);
        assert(before.push(last) =~= timers);
        push_contains(before, last, t);
        push_contains(without_id(before, id), last, t);
    } else {
        assert(without_id(timers, id) =~= timers);
    }
}

/// Deleting changes nothing in the order of the timers that stay: what is left of two lists,
/// one after the other, is what is left of each.
pub proof fn delete_keeps_the_order(a: Seq<TimerView>, b: Seq<TimerView>, id: u64)
    ensures
        without_id(a + b, id) == without_id(a, id) + without_id(b, id),
{
    Seq::filter_distributes_over_add(a, b, |t: TimerView| t.id != id);
}

/// A check changes nothing in the order of the timers, neither of those that it hands out nor
/// of those that stay.
pub proof fn check_keeps_the_order(a: Seq<TimerView>, b: Seq<TimerView>, now: Timestamp)
    ensures
        expired(a + b, now) == expired(a, now) + expired(b, now),
        pending(a + b, now) == pending(a, now) + pending(b, now),
{
    Seq::filter_distributes_over_add(a, b, |t: TimerView| t.timestamp.is_by(now));
    Seq::filter_distributes_over_add(a, b, |t: TimerView| !t.timestamp.is_by(now));
}

/// The report tells of every timer, in order: it is made of a line for each, which tells its
/// id, its description, its point in time and the time that is left.
pub proof fn every_timer_is_told(a: Seq<TimerView>, b: Seq<TimerView>, t: TimerView, now: Timestamp)
    ensures
        timer_lines(a + b, now) == timer_lines(a, now) + timer_lines(b, now),
        timer_lines(seq![t], now) == "Timer_ID: \""@ + text::decimal(t.id as nat)
            + "\" Timer_description: \""@ + t.description + "\" goes off at time: \""@
            + clock::rfc3339_text(t.timestamp.seconds, t.timestamp.nanos, t.timestamp.offset)
            + "\""@ + " which is \""@ + clock::duration_words(
            clock::seconds_between(now, t.timestamp),
            0,
        ) + "\" from now.\n"@,
    decreases b.len(),
{
    let one = seq![t];
    assert(one.drop_last() =~= Seq::<TimerView>::empty());
    assert(timer_lines(one.drop_last(), now) =~= Seq::<char>::empty());
    assert(timer_lines(one, now) =~= timer_line(t, now));
    if b.len() == 0 {
        assert(a + b =~= a);
        assert(timer_lines(a, now) + timer_lines(b, now) =~= timer_lines(a, now));
    } else {
        every_timer_is_told(a, b.drop_last(), t, now);
        assert((a + b).drop_last() =~= a + b.drop_last());
        assert((a + b).last() == b.last());
        assert(timer_lines(a + b, now) =~= timer_lines(a, now) + timer_lines(b, now));
    }
}

/// The timers file can be taken over exactly if every row gives a timer and an id is left, and
/// then there is a timer for each row, in the same order.
pub proof fn every_row_is_a_timer(rows: Seq<Result<Seq<Seq<char>>, Seq<char>>>)
    ensures
        read_all(rows) is Ok <==> forall|i: int|
            0 <= i < rows.len() ==> read_row(#[trigger] rows[i]) is Ok,
        read_all(rows) matches Ok(timers) ==> {
            &&& timers.len() == rows.len()
            &&& forall|i: int|
                0 <= i < rows.len() ==> read_row(#[trigger] rows[i]) == Ok::<
                    LoadedTimer,
                    LoadError<Seq<char>>,
                >(timers[i])
            &&& loaded(rows) is Ok <==> forall|i: int|
                0 <= i < timers.len() ==> (#[trigger] timers[i]).0 < u64::MAX
        },
    decreases rows.len(),
{
    if rows.len() > 0 {
        let before = rows.drop_last();
        every_row_is_a_timer(before);
        assert forall|i: int| 0 <= i < before.len() implies before[i] == rows[i] by {}
        assert(rows[rows.len() - 1] == rows.last());
        if read_all(before) is Ok && read_row(rows.last()) is Ok {
            let timers = read_all(rows)->Ok_0;
            assert forall|i: int| 0 <= i < rows.len() implies read_row(#[trigger] rows[i]) == Ok::<
                LoadedTimer,
                LoadError<Seq<char>>,
            >(timers[i]) by {
                if i < before.len() {
                    assert(before[i] == rows[i]);
                }
            }
        } else if read_all(before) is Err {
            let k = choose|k: int| 0 <= k < before.len() && !(read_row(#[trigger] before[k]) is Ok);
            assert(rows[k] == before[k]);
        }
    }
    if let Ok(timers) = read_all(rows) {
        highest_id_bounds(timers);
    }
}

/// A row gives a timer with the parts that it has: an id in decimal, the description as it
/// is, and the point in time that its third field names.
pub proof fn row_gives_its_fields(
    id: u64,
    description: Seq<char>,
    time: Seq<char>,
    instant: (i64, u32),
)
    requires
        clock::rfc3339_instant(time) == Ok::<(i64, u32), Seq<char>>(instant),
    ensures
        read_row(Ok(seq![text::decimal(id as nat), description, time])) == Ok::<
            LoadedTimer,
            LoadError<Seq<char>>,
        >((id, description, instant)),
{
    text::decimal_reads_back(id as nat);
}

/// The sound of a ringing alarm starts again exactly when it has ended, until someone asks
/// for silence.
pub proof fn alarm_repeats_its_sound(a: AudibleTimers, sound_ended: bool)
    requires
        !a.stop_requested,
    ensures
        alarm_polled(a, sound_ended).1 is PlayAgain <==> sound_ended,
        alarm_polled(a, sound_ended).1 is Wait <==> !sound_ended,
        alarm_polled(a, sound_ended).0 == a,
{
}

/// A stopwatch that runs is not changed by being started, and one that does not run is not
/// changed by being stopped.
pub proof fn stopwatch_repeats_are_ignored(sw: Stopwatch, now: u128)
    ensures
        sw.started is Some ==> started_at(sw, now) == sw,
        sw.started is None ==> stopped_at(sw, now) == sw,
        sw.started is None ==> started_at(sw, now).started == Some(now),
        stopped_at(sw, now).started is None,
{
}

/// While the stopwatch runs it shows what passes, nanosecond by nanosecond.
pub proof fn running_stopwatch_goes_on(sw: Stopwatch, now: u128, later: u128)
    requires
        sw.started matches Some(start) && start <= now <= later,
    ensures
        shown(sw, later) - shown(sw, now) == later - now,
        shown(sw, sw.started->0) == sw.recorded,
{
}

/// The words for a time are those of its seconds and of the nanoseconds that are over.
pub proof fn words_tell_the_whole_time(seconds: u64, nanos: u32)
    requires
        nanos < 1_000_000_000,
    ensures
        nanos_words(seconds * 1_000_000_000 + nanos) == clock::duration_words(seconds, nanos),
{
    let whole = seconds * 1_000_000_000 + nanos;
    assert(whole / 1_000_000_000 == seconds as int && whole % 1_000_000_000 == nanos as int);
}

} // verus!
