//! Wide (UTF-16) strings for the windowing calls, and the table that keeps
//! the window's strings alive under their names.

use vstd::prelude::*;

verus! {

/// Name under which the main window's class is registered.
pub const MAIN_WND_CLASS: &'static str = "my_class";

/// Title of the main window.
pub const MAIN_WND_NAME: &'static str = "my main window";

/// The UTF-16 code units of one character: the character itself below
/// `0x1_0000`, and otherwise a high and a low surrogate that carry ten bits
/// each of its offset from `0x1_0000`.
pub open spec fn char_units(c: char) -> Seq<u16> {
    let v = c as int;
    if v < 0x1_0000 {
        seq![v as u16]
    } else {
        seq![(0xD800 + (v - 0x1_0000) / 0x400) as u16, (0xDC00 + (v - 0x1_0000) % 0x400) as u16]
    }
}

/// The UTF-16 encoding of a text: the units of its characters, in order.
pub open spec fn wide(text: Seq<char>) -> Seq<u16>
    decreases text.len(),
{
    if text.len() == 0 {
        Seq::empty()
    } else {
        wide(text.drop_last()) + char_units(text.last())
    }
}

/// Appends the UTF-16 units of `c` to `out`.
fn push_units(out: &mut Vec<u16>, c: char)
    ensures
        final(out)@ == old(out)@ + char_units(c),
{
    let v: u32 = c as u32;
    if v < 0x1_0000 {
        out.push(v as u16);
    } else {
        let offset: u32 = v - 0x1_0000;
        assert(offset >> 10 == offset / 0x400 && offset & 0x3ff == offset % 0x400) by (bit_vector);
        out.push((0xD800 + (offset >> 10)) as u16);
        out.push((0xDC00 + (offset & 0x3ff)) as u16);
    }
    assert(out@ =~= old(out)@ + char_units(c));
}

/// The UTF-16 units of `text`.
fn encode(text: &str) -> (out: Vec<u16>)
    ensures
        out@ == wide(text@),
{
    let mut out: Vec<u16> = Vec::new();
    for c in it: text.chars()
        invariant
            it.seq() == text@,
            out@ == wide(text@.take(it.index())),
    {
        assert(text@.take(it.index() + 1).drop_last() =~= text@.take(it.index()));
        push_units(&mut out, c);
    }
    assert(text@.take(text@.len() as int) =~= text@);
    out
}

/// Texts that can be handed to the windowing calls as UTF-16.
pub trait ToWide {
    /// The characters of the text.
    spec fn text(&self) -> Seq<char>;

    /// The UTF-16 units of the text.
    fn to_wide(&self) -> (units: Vec<u16>)
        ensures
            units@ == wide(self.text()),
    ;

    /// The UTF-16 units of the text, followed by one terminating zero.
    fn to_wide_null(&self) -> (units: Vec<u16>)
        ensures
            units@ == wide(self.text()).push(0),
    ;
}

impl ToWide for str {
    open spec fn text(&self) -> Seq<char> {
        self@
    }

    fn to_wide(&self) -> (units: Vec<u16>) {
        encode(self)
    }

    fn to_wide_null(&self) -> (units: Vec<u16>) {
        let mut units = encode(self);
        units.push(0);
        units
    }
}

impl ToWide for String {
    open spec fn text(&self) -> Seq<char> {
        self@
    }

    fn to_wide(&self) -> (units: Vec<u16>) {
        encode(self.as_str())
    }

    fn to_wide_null(&self) -> (units: Vec<u16>) {
        let mut units = encode(self.as_str());
        units.push(0);
        units
    }
}

/// The units of `units` that stand before its first zero: all of them where
/// it holds none.
pub open spec fn until_null(units: Seq<u16>) -> Seq<u16>
    decreases units.len(),
{
    if units.len() == 0 || units[0] == 0 {
        Seq::empty()
    } else {
        seq![units[0]] + until_null(units.drop_first())
    }
}

/// `until_null` is the longest prefix that holds no zero.
pub proof fn lemma_until_null(units: Seq<u16>)
    ensures
        until_null(units).len() <= units.len(),
        until_null(units) == units.take(until_null(units).len() as int),
        forall|i: int| 0 <= i < until_null(units).len() ==> units[i] != 0,
        until_null(units).len() < units.len() ==> units[until_null(units).len() as int] == 0,
    decreases units.len(),
{
    if units.len() == 0 || units[0] == 0 {
        assert(until_null(units) =~= units.take(0));
    } else {
        let rest = units.drop_first();
        lemma_until_null(rest);
        let n = until_null(rest).len() as int;
        assert(until_null(units) =~= units.take(n + 1));
        assert forall|i: int| 0 <= i < until_null(units).len() implies units[i] != 0 by {
            if i > 0 {
                assert(units[i] == rest[i - 1]);
            }
        }
        if until_null(units).len() < units.len() {
            assert(units[n + 1] == rest[n]);
        }
    }
}

/// Values that can be read out of a zero-terminated UTF-16 buffer.
pub trait FromWide: Sized {
    /// The units that the value stands for.
    spec fn units(&self) -> Seq<u16>;

    /// Reads the text that ends before the first zero of `wide`, or with
    /// `wide` where it holds none.
    fn from_wide_null(wide: &[u16]) -> (text: Self)
        ensures
            text.units() == until_null(wide@),
    ;
}

impl FromWide for Vec<u16> {
    open spec fn units(&self) -> Seq<u16> {
        self@
    }

    fn from_wide_null(wide: &[u16]) -> (text: Vec<u16>) {
        let mut text: Vec<u16> = Vec::new();
        let mut len: usize = 0;
        while len < wide.len() && wide[len] != 0
            invariant
                len <= wide@.len(),
                text@ == wide@.take(len as int),
                forall|i: int| 0 <= i < len ==> wide@[i] != 0,
            decreases wide@.len() - len,
        {
            text.push(wide[len]);
            len = len + 1;
            assert(text@ =~= wide@.take(len as int));
        }
        proof {
            lemma_prefix_is_until_null(wide@, len as int);
        }
        text
    }
}

/// A prefix without a zero that ends at a zero, or at the end, is `until_null`.
proof fn lemma_prefix_is_until_null(units: Seq<u16>, n: int)
    requires
        0 <= n <= units.len(),
        forall|i: int| 0 <= i < n ==> units[i] != 0,
        n < units.len() ==> units[n] == 0,
    ensures
        until_null(units) == units.take(n),
    decreases n,
{
    if n == 0 {
        assert(until_null(units) =~= units.take(0));
    } else {
        let rest = units.drop_first();
        assert forall|i: int| 0 <= i < n - 1 implies rest[i] != 0 by {
            assert(rest[i] == units[i + 1]);
        }
        lemma_prefix_is_until_null(rest, n - 1);
        assert(until_null(units) =~= units.take(n));
    }
}

/// No unit of a character other than NUL is zero.
proof fn lemma_units_not_zero(c: char)
    requires
        c != '\0',
    ensures
        forall|k: int| 0 <= k < char_units(c).len() ==> char_units(c)[k] != 0,
{
    let v = c as int;
    if v >= 0x1_0000 {
        let offset = v - 0x1_0000;
        assert(0 <= offset / 0x400 < 0x400);
        assert(0 <= offset % 0x400 < 0x400);
    }
}

/// The units of a text hold no zero where the text holds no NUL character.
proof fn lemma_wide_no_zero(text: Seq<char>)
    requires
        forall|i: int| 0 <= i < text.len() ==> text[i] != '\0',
    ensures
        forall|j: int| 0 <= j < wide(text).len() ==> wide(text)[j] != 0,
    decreases text.len(),
{
    if text.len() > 0 {
        let front = text.drop_last();
        assert forall|i: int| 0 <= i < front.len() implies front[i] != '\0' by {
            assert(front[i] == text[i]);
        }
        lemma_wide_no_zero(front);
        let c = text.last();
        assert(c != '\0');
        lemma_units_not_zero(c);
        assert forall|j: int| 0 <= j < wide(text).len() implies wide(text)[j] != 0 by {
            if j >= wide(front).len() {
                assert(wide(text)[j] == char_units(c)[j - wide(front).len()]);
            }
        }
    }
}

/// A text without a NUL character survives a zero-terminated buffer: what
/// `from_wide_null` reads out of the result of `to_wide_null` is what
/// `to_wide` gives.
pub proof fn lemma_round_trip(text: Seq<char>)
    requires
        forall|i: int| 0 <= i < text.len() ==> text[i] != '\0',
    ensures
        until_null(wide(text).push(0)) == wide(text),
{
    lemma_wide_no_zero(text);
    let buffer = wide(text).push(0);
    lemma_prefix_is_until_null(buffer, wide(text).len() as int);
    assert(buffer.take(wide(text).len() as int) =~= wide(text));
}

/// One named string of the table.
struct Entry {
    key: String,
    value: Vec<u16>,
}

/// The position of `key` among `entries`, where it is one of their keys.
spec fn position(entries: Seq<Entry>, key: Seq<char>) -> int {
    choose|i: int| 0 <= i < entries.len() && entries[i].key@ == key
}

/// Whether `key` is one of the keys of `entries`.
spec fn holds(entries: Seq<Entry>, key: Seq<char>) -> bool {
    exists|i: int| 0 <= i < entries.len() && entries[i].key@ == key
}

/// Whether no key stands twice in `entries`.
spec fn distinct(entries: Seq<Entry>) -> bool {
    forall|i: int, j: int| 0 <= i < j < entries.len() ==> entries[i].key@ != entries[j].key@
}

/// The zero-terminated wide strings that the windowing calls are handed,
/// each kept under a name for as long as the table lives.
pub struct StringTable {
    entries: Vec<Entry>,
}

impl View for StringTable {
    type V = Map<Seq<char>, Seq<u16>>;

    /// The buffer kept under each name.
    closed spec fn view(&self) -> Map<Seq<char>, Seq<u16>> {
        Map::new(
            |key: Seq<char>| holds(self.entries@, key),
            |key: Seq<char>| self.entries@[position(self.entries@, key)].value@,
        )
    }
}

impl StringTable {
    /// Every name stands once in the table.
    pub closed spec fn wf(&self) -> bool {
        distinct(self.entries@)
    }

    /// The table as the window host starts with it: the window's class name
    /// and its title, each under its own text.
    pub fn new() -> (table: StringTable)
        ensures
            table.wf(),
            table@ == Map::<Seq<char>, Seq<u16>>::empty().insert(
                MAIN_WND_CLASS@,
                wide(MAIN_WND_CLASS@).push(0),
            ).insert(MAIN_WND_NAME@, wide(MAIN_WND_NAME@).push(0)),
    {
        let mut table = StringTable { entries: Vec::new() };
        assert(table@ =~= Map::<Seq<char>, Seq<u16>>::empty());
        _set_string(&mut table, MAIN_WND_CLASS, MAIN_WND_CLASS.to_owned());
        _set_string(&mut table, MAIN_WND_NAME, MAIN_WND_NAME.to_owned());
        table
    }

    /// The index of the entry kept under `key`, if there is one.
    fn find(&self, key: &str) -> (found: Option<usize>)
        requires
            self.wf(),
        ensures
            found matches Some(i) ==> i < self.entries@.len() && self.entries@[i as int].key@ == key@
                && self@.contains_key(key@) && self@[key@] == self.entries@[i as int].value@,
            found is None ==> !self@.contains_key(key@),
    {
        let owned = key.to_owned();
        let mut i: usize = 0;
        while i < self.entries.len()
            invariant
                self.wf(),
                i <= self.entries@.len(),
                owned@ == key@,
                forall|j: int| 0 <= j < i ==> self.entries@[j].key@ != key@,
            decreases self.entries@.len() - i,
        {
            if self.entries[i].key == owned {
                proof {
                    assert(self.entries@[i as int].key@ == key@);
                    assert(holds(self.entries@, key@));
                    let j = position(self.entries@, key@);
                    assert(self.entries@[j].key@ == key@);
                    assert(j == i);
                }
                return Some(i);
            }
            i = i + 1;
        }
        None
    }

    /// The buffer kept under `key`, if there is one.
    pub fn get(&self, key: &str) -> (value: Option<&Vec<u16>>)
        requires
            self.wf(),
        ensures
            value matches Some(units) ==> self@.contains_key(key@) && units@ == self@[key@],
            value is None ==> !self@.contains_key(key@),
    {
        match self.find(key) {
            Some(i) => Some(&self.entries[i].value),
            None => None,
        }
    }
}

/// The buffer that `table` keeps under the name `str`. The name must be in
/// the table.
pub fn get_string<'a>(table: &'a StringTable, str: &str) -> (units: &'a Vec<u16>)
    requires
        table.wf(),
        table@.contains_key(str@),
    ensures
        units@ == table@[str@],
{
    table.get(str).unwrap()
}

/// Keeps `value`, encoded and zero-terminated, under the name `str`, in place
/// of what the table kept under that name before.
pub fn _set_string(table: &mut StringTable, str: &'static str, value: String)
    requires
        old(table).wf(),
    ensures
        final(table).wf(),
        final(table)@ == old(table)@.insert(str@, wide(value@).push(0)),
{
    let units = value.to_wide_null();
    let ghost before = table.entries@;
    match table.find(str) {
        Some(i) => {
            let entry = Entry { key: str.to_owned(), value: units };
            table.entries.set(i, entry);
            proof {
                let after = table.entries@;
                assert forall|key: Seq<char>| holds(after, key) == holds(before, key) by {
                    if holds(before, key) {
                        let j = position(before, key);
                        assert(after[j].key@ == key);
                    }
                    if holds(after, key) {
                        let j = position(after, key);
                        assert(before[j].key@ == key);
                    }
                }
                assert(table@ =~= old(table)@.insert(str@, wide(value@).push(0)));
            }
        },
        None => {
            let entry = Entry { key: str.to_owned(), value: units };
            table.entries.push(entry);
            proof {
                let after = table.entries@;
                assert(after[before.len() as int].key@ == str@);
                assert forall|key: Seq<char>| holds(after, key) == (holds(before, key) || key == str@) by {
                    if holds(before, key) {
                        let j = position(before, key);
                        assert(after[j].key@ == key);
                    }
                    if holds(after, key) {
                        let j = position(after, key);
                        if j < before.len() {
                            assert(before[j].key@ == key);
                        }
                    }
                }
                assert(table@ =~= old(table)@.insert(str@, wide(value@).push(0)));
            }
        },
    }
}

} // verus!
