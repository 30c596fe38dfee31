//! The layout-aware virtual keyboard: builds the character-to-keycode map
//! from the keymap entries the surrounding program reads out of the system
//! keyboard layout, and turns text into the exact press/release event
//! sequence for the injection daemon's socket. Writing the events out is
//! the surrounding program's job.

use vstd::prelude::*;

verus! {

/// Input-event type for a synchronization marker.
pub const EV_SYN: u16 = 0;

/// Input-event type for a key event.
pub const EV_KEY: u16 = 1;

/// Key code of the left shift key.
pub const KEY_LEFTSHIFT: u16 = 42;

/// Key code of the right alt key, serving as the level-three access key.
pub const KEY_RIGHTALT: u16 = 100;

/// Key codes of enter and tab, mapped even when the layout says nothing.
pub const KEY_ENTER: u16 = 28;

pub const KEY_TAB: u16 = 15;

/// Keymap key codes sit eight above input-event key codes.
pub const KEYCODE_OFFSET: u32 = 8;

/// A character's key: the code to press and the modifiers it needs.
#[derive(Debug, Clone, Copy, PartialEq, Eq, Structural)]
pub struct KeyCombo {
    pub keycode: u16,
    pub shift: bool,
    pub altgr: bool,
}

/// One event in the injection daemon's wire format: the kernel input-event
/// layout with the timestamp left at zero.
#[derive(Debug, Clone, Copy, PartialEq, Eq, Structural)]
pub struct InputEvent {
    pub tv_sec: i64,
    pub tv_usec: i64,
    pub type_: u16,
    pub code: u16,
    pub value: i32,
}

/// A key event with a zeroed timestamp.
pub open spec fn key_event(code: u16, value: i32) -> InputEvent {
    InputEvent { tv_sec: 0, tv_usec: 0, type_: 1, code, value }
}

/// The synchronization marker.
pub open spec fn syn_event() -> InputEvent {
    InputEvent { tv_sec: 0, tv_usec: 0, type_: 0, code: 0, value: 0 }
}

/// The modifiers of one shift level: plain, shift, level three, both;
/// higher levels are not typed.
pub open spec fn level_mods(level: u8) -> Option<(bool, bool)> {
    if level == 0 {
        Some((false, false))
    } else if level == 1 {
        Some((true, false))
    } else if level == 2 {
        Some((false, true))
    } else if level == 3 {
        Some((true, true))
    } else {
        None
    }
}

/// The combo a character maps to: that of its earliest entry.
pub open spec fn lookup_spec(m: Seq<(char, KeyCombo)>, c: char) -> Option<KeyCombo>
    decreases m.len(),
{
    if m.len() == 0 {
        None
    } else if m[0].0 == c {
        Some(m[0].1)
    } else {
        lookup_spec(m.skip(1), c)
    }
}

/// One keymap entry folded into the map: entries below the key-code offset,
/// beyond the key-code range, on untyped levels, or for characters already
/// mapped are dropped — the earliest (lowest-level) entry wins.
pub open spec fn insert_entry(m: Seq<(char, KeyCombo)>, e: (u32, u8, char)) -> Seq<
    (char, KeyCombo),
> {
    if e.0 < 8 || e.0 - 8 > 65535 {
        m
    } else {
        match level_mods(e.1) {
            None => m,
            Some((shift, altgr)) => {
                if lookup_spec(m, e.2) is Some {
                    m
                } else {
                    m.push((e.2, KeyCombo { keycode: (e.0 - 8) as u16, shift, altgr }))
                }
            },
        }
    }
}

/// The map after folding in the entries from position `i` on.
pub open spec fn build_from(m: Seq<(char, KeyCombo)>, es: Seq<(u32, u8, char)>, i: int) -> Seq<
    (char, KeyCombo),
>
    decreases es.len() - i,
{
    if i < 0 || i >= es.len() {
        m
    } else {
        build_from(insert_entry(m, es[i]), es, i + 1)
    }
}

/// A control character mapped to a fixed key unless the layout already
/// provided one.
pub open spec fn with_default(m: Seq<(char, KeyCombo)>, c: char, code: u16) -> Seq<
    (char, KeyCombo),
> {
    if lookup_spec(m, c) is Some {
        m
    } else {
        m.push((c, KeyCombo { keycode: code, shift: false, altgr: false }))
    }
}

/// The whole map of a layout: its entries in order, then enter and tab as
/// fallbacks.
pub open spec fn vk_map_spec(es: Seq<(u32, u8, char)>) -> Seq<(char, KeyCombo)> {
    with_default(with_default(build_from(Seq::empty(), es, 0), '\n', 28), '\t', 15)
}

/// The press/release sequence of one combo: modifiers pressed first, the
/// key pressed and released around a marker, modifiers released in reverse
/// order, a closing marker.
pub open spec fn combo_events(c: KeyCombo) -> Seq<InputEvent> {
    let press_mods = (if c.shift {
        seq![key_event(42, 1)]
    } else {
        Seq::empty()
    }) + (if c.altgr {
        seq![key_event(100, 1)]
    } else {
        Seq::empty()
    });
    let release_mods = (if c.altgr {
        seq![key_event(100, 0)]
    } else {
        Seq::empty()
    }) + (if c.shift {
        seq![key_event(42, 0)]
    } else {
        Seq::empty()
    });
    press_mods + seq![key_event(c.keycode, 1), syn_event(), key_event(c.keycode, 0)]
        + release_mods + seq![syn_event()]
}

/// The event sequence of a text: each mapped character's combo in order;
/// characters the layout cannot type are skipped.
pub open spec fn events_spec(m: Seq<(char, KeyCombo)>, t: Seq<char>) -> Seq<InputEvent>
    decreases t.len(),
{
    if t.len() == 0 {
        Seq::empty()
    } else {
        (match lookup_spec(m, t[0]) {
            None => Seq::empty(),
            Some(c) => combo_events(c),
        }) + events_spec(m, t.skip(1))
    }
}

/// The events of one combo, as a vector.
fn combo_event_vec(c: KeyCombo) -> (r: Vec<InputEvent>)
    ensures
        r@ == combo_events(c),
{
    let mut r: Vec<InputEvent> = Vec::new();
    if c.shift {
        r.push(InputEvent { tv_sec: 0, tv_usec: 0, type_: 1, code: 42, value: 1 });
    }
    if c.altgr {
        r.push(InputEvent { tv_sec: 0, tv_usec: 0, type_: 1, code: 100, value: 1 });
    }
    r.push(InputEvent { tv_sec: 0, tv_usec: 0, type_: 1, code: c.keycode, value: 1 });
    r.push(InputEvent { tv_sec: 0, tv_usec: 0, type_: 0, code: 0, value: 0 });
    r.push(InputEvent { tv_sec: 0, tv_usec: 0, type_: 1, code: c.keycode, value: 0 });
    if c.altgr {
        r.push(InputEvent { tv_sec: 0, tv_usec: 0, type_: 1, code: 100, value: 0 });
    }
    if c.shift {
        r.push(InputEvent { tv_sec: 0, tv_usec: 0, type_: 1, code: 42, value: 0 });
    }
    r.push(InputEvent { tv_sec: 0, tv_usec: 0, type_: 0, code: 0, value: 0 });
    proof {
        assert(r@ =~= combo_events(c));
    }
    r
}

/// The keyboard: a character-to-key map in insertion order.
pub struct VirtualKeyboard {
    pub char_map: Vec<(char, KeyCombo)>,
}

impl VirtualKeyboard {
    /// Builds the keyboard from keymap entries read out of the system
    /// layout, ordered by key code and then shift level: the first entry
    /// that can type a character wins, and enter and tab always type.
    pub fn from_layout_entries(entries: &Vec<(u32, u8, char)>) -> (r: VirtualKeyboard)
        ensures
            r.char_map@ == vk_map_spec(entries@),
    {
        let mut m: Vec<(char, KeyCombo)> = Vec::new();
        let n = entries.len();
        for i in 0..n
            invariant
                n == entries@.len(),
                m@ == build_from_prefix(entries@, i as int),
        {
            proof {
                lemma_build_from_step(entries@, i as int);
            }
            let e = entries[i];
            if !(e.0 < 8 || e.0 - 8 > 65535) {
                let mods: Option<(bool, bool)> = if e.1 == 0 {
                    Some((false, false))
                } else if e.1 == 1 {
                    Some((true, false))
                } else if e.1 == 2 {
                    Some((false, true))
                } else if e.1 == 3 {
                    Some((true, true))
                } else {
                    None
                };
                if let Some((shift, altgr)) = mods {
                    if Self::scan(&m, e.2).is_none() {
                        m.push((e.2, KeyCombo { keycode: (e.0 - 8) as u16, shift, altgr }));
                    }
                }
            }
        }
        proof {
            lemma_build_from_complete(entries@);
        }
        if Self::scan(&m, '\n').is_none() {
            m.push(('\n', KeyCombo { keycode: 28, shift: false, altgr: false }));
        }
        if Self::scan(&m, '\t').is_none() {
            m.push(('\t', KeyCombo { keycode: 15, shift: false, altgr: false }));
        }
        VirtualKeyboard { char_map: m }
    }

    /// The combo of the earliest entry for `c`, if one exists.
    fn scan(m: &Vec<(char, KeyCombo)>, c: char) -> (r: Option<KeyCombo>)
        ensures
            r == lookup_spec(m@, c),
    {
        let n = m.len();
        proof {
            assert(m@.skip(0) =~= m@);
        }
        for i in 0..n
            invariant
                n == m@.len(),
                lookup_spec(m@, c) == lookup_spec(m@.skip(i as int), c),
        {
            proof {
                assert(m@.skip(i as int).skip(1) =~= m@.skip(i + 1));
                assert(m@.skip(i as int)[0] == m@[i as int]);
            }
            if m[i].0 == c {
                return Some(m[i].1);
            }
        }
        proof {
            assert(m@.skip(n as int) =~= Seq::<(char, KeyCombo)>::empty());
        }
        None
    }

    /// The combo this keyboard types `c` with, if it can.
    pub fn lookup(&self, c: char) -> (r: Option<KeyCombo>)
        ensures
            r == lookup_spec(self.char_map@, c),
    {
        Self::scan(&self.char_map, c)
    }

    /// The exact event sequence that types `text`: each mapped character's
    /// presses and releases in order, unmapped characters skipped.
    pub fn events_for_text(&self, text: &str) -> (r: Vec<InputEvent>)
        ensures
            r@ == events_spec(self.char_map@, text@),
    {
        let chars = crate::strutil::chars_of(text);
        let n = chars.len();
        let mut r: Vec<InputEvent> = Vec::new();
        proof {
            assert(text@.skip(0) =~= text@);
            assert(r@ + events_spec(self.char_map@, text@) =~= events_spec(
                self.char_map@,
                text@,
            ));
        }
        for i in 0..n
            invariant
                n == chars@.len(),
                chars@ == text@,
                r@ + events_spec(self.char_map@, text@.skip(i as int)) == events_spec(
                    self.char_map@,
                    text@,
                ),
        {
            proof {
                assert(text@.skip(i as int).skip(1) =~= text@.skip(i + 1));
                assert(text@.skip(i as int)[0] == text@[i as int]);
            }
            let ghost pre = r@;
            let ghost rest = text@.skip(i as int);
            match self.lookup(chars[i]) {
                Some(c) => {
                    let mut ev = combo_event_vec(c);
                    proof {
                        assert(pre + (combo_events(c) + events_spec(
                            self.char_map@,
                            rest.skip(1),
                        )) =~= (pre + combo_events(c)) + events_spec(self.char_map@, rest.skip(1)));
                    }
                    r.append(&mut ev);
                },
                None => {
                    proof {
                        assert(Seq::<InputEvent>::empty() + events_spec(
                            self.char_map@,
                            rest.skip(1),
                        ) =~= events_spec(self.char_map@, rest.skip(1)));
                    }
                },
            }
        }
        proof {
            assert(text@.skip(n as int) =~= Seq::<char>::empty());
            assert(r@ + Seq::<InputEvent>::empty() =~= r@);
        }
        r
    }
}

/// The map after the first `i` entries.
pub open spec fn build_from_prefix(es: Seq<(u32, u8, char)>, i: int) -> Seq<(char, KeyCombo)>
    decreases i,
{
    if i <= 0 {
        Seq::empty()
    } else {
        insert_entry(build_from_prefix(es, i - 1), es[i - 1])
    }
}

proof fn lemma_build_from_step(es: Seq<(u32, u8, char)>, i: int)
    requires
        0 <= i < es.len(),
    ensures
        build_from_prefix(es, i + 1) == insert_entry(build_from_prefix(es, i), es[i]),
{
}

/// Folding from the front and accumulating over a prefix agree.
proof fn lemma_build_from_complete(es: Seq<(u32, u8, char)>)
    ensures
        build_from_prefix(es, es.len() as int) == build_from(Seq::empty(), es, 0),
{
    lemma_build_from_agree(es, Seq::empty(), 0);
}

proof fn lemma_build_from_agree(es: Seq<(u32, u8, char)>, m: Seq<(char, KeyCombo)>, i: int)
    requires
        0 <= i <= es.len(),
        m == build_from_prefix(es, i),
    ensures
        build_from(m, es, i) == build_from_prefix(es, es.len() as int),
    decreases es.len() - i,
{
    if i < es.len() {
        lemma_build_from_agree(es, insert_entry(m, es[i]), i + 1);
    }
}


/// The position of the first `c` in `s`, or -1 when there is none.
pub open spec fn first_index_of(s: Seq<char>, c: char) -> int
    decreases s.len(),
{
    if s.len() == 0 {
        -1
    } else if s[0] == c {
        0
    } else {
        let r = first_index_of(s.skip(1), c);
        if r < 0 {
            -1
        } else {
            1 + r
        }
    }
}

proof fn lemma_first_index_of_is(s: Seq<char>, c: char, i: int)
    requires
        0 <= i < s.len(),
        s[i] == c,
        forall|j: int| 0 <= j < i ==> s[j] != c,
    ensures
        first_index_of(s, c) == i,
    decreases i,
{
    if i > 0 {
        assert(s.skip(1)[i - 1] == s[i]);
        assert forall|j: int| 0 <= j < i - 1 implies s.skip(1)[j] != c by {
            assert(s.skip(1)[j] == s[j + 1]);
        }
        lemma_first_index_of_is(s.skip(1), c, i - 1);
    }
}

proof fn lemma_first_index_of_none(s: Seq<char>, c: char)
    requires
        forall|j: int| 0 <= j < s.len() ==> s[j] != c,
    ensures
        first_index_of(s, c) < 0,
    decreases s.len(),
{
    if s.len() > 0 {
        assert forall|j: int| 0 <= j < s.skip(1).len() implies s.skip(1)[j] != c by {
            assert(s.skip(1)[j] == s[j + 1]);
        }
        lemma_first_index_of_none(s.skip(1), c);
    }
}

/// The position of the first `c`, scanning left to right.
fn find_char(v: &Vec<char>, c: char) -> (r: Option<usize>)
    ensures
        match r {
            Some(i) => first_index_of(v@, c) == i as int && i < v@.len(),
            None => first_index_of(v@, c) < 0,
        },
{
    let n = v.len();
    for i in 0..n
        invariant
            n == v@.len(),
            forall|j: int| 0 <= j < i ==> v@[j] != c,
    {
        if v[i] == c {
            proof {
                lemma_first_index_of_is(v@, c, i as int);
            }
            return Some(i);
        }
    }
    proof {
        lemma_first_index_of_none(v@, c);
    }
    None
}

/// Whether `s` begins with `p`.
pub open spec fn starts_with(s: Seq<char>, p: Seq<char>) -> bool {
    s.len() >= p.len() && s.take(p.len() as int) == p
}

/// The text up to the first comma, or all of it.
pub open spec fn first_field(s: Seq<char>) -> Seq<char> {
    let i = first_index_of(s, ',');
    if i < 0 {
        s
    } else {
        s.take(i)
    }
}

/// What one configuration line contributes to the layout settings: a
/// `LayoutList=` line sets the layout, a `VariantList=` line the variant,
/// each to its first comma-separated entry; other lines change nothing.
pub open spec fn apply_config_line(
    st: (Seq<char>, Seq<char>),
    line: Seq<char>,
) -> (Seq<char>, Seq<char>) {
    let t = crate::strutil::trim_spec(line);
    if starts_with(t, "LayoutList="@) {
        (first_field(t.skip(11)), st.1)
    } else if starts_with(t, "VariantList="@) {
        (st.0, first_field(t.skip(12)))
    } else {
        st
    }
}

/// The settings after the first `i` characters: lines are applied as each
/// newline completes them; the third component is the line under way.
pub open spec fn layout_scan(s: Seq<char>, i: int) -> (Seq<char>, Seq<char>, Seq<char>)
    decreases i,
{
    if i <= 0 {
        (Seq::empty(), Seq::empty(), Seq::empty())
    } else {
        let st = layout_scan(s, i - 1);
        if s[i - 1] == '\n' {
            let applied = apply_config_line((st.0, st.1), st.2);
            (applied.0, applied.1, Seq::empty())
        } else {
            (st.0, st.1, st.2.push(s[i - 1]))
        }
    }
}

/// The settings a keyboard configuration text ends with: every line applied
/// in order, the unterminated last line included, the later of two settings
/// winning.
pub open spec fn final_layout_state(s: Seq<char>) -> (Seq<char>, Seq<char>) {
    let st = layout_scan(s, s.len() as int);
    apply_config_line((st.0, st.1), st.2)
}

/// The layout the text names; empty when it names none.
pub open spec fn config_layout(s: Seq<char>) -> Seq<char> {
    final_layout_state(s).0
}

/// The variant the text names; empty when it names none.
pub open spec fn config_variant(s: Seq<char>) -> Seq<char> {
    final_layout_state(s).1
}

/// Applies one completed line to the settings.
fn apply_line(layout: &mut Vec<char>, variant: &mut Vec<char>, line: &Vec<char>)
    ensures
        final(layout)@ == apply_config_line((old(layout)@, old(variant)@), line@).0,
        final(variant)@ == apply_config_line((old(layout)@, old(variant)@), line@).1,
{
    let t = crate::strutil::trim_chars(line);
    let layout_key = crate::strutil::chars_of("LayoutList=");
    let variant_key = crate::strutil::chars_of("VariantList=");
    proof {
        reveal_strlit("LayoutList=");
        reveal_strlit("VariantList=");
    }
    if prefix_matches(&t, &layout_key) {
        *layout = field_after(&t, 11);
    } else if prefix_matches(&t, &variant_key) {
        *variant = field_after(&t, 12);
    }
}

/// Whether `v` begins with `p`.
fn prefix_matches(v: &Vec<char>, p: &Vec<char>) -> (r: bool)
    ensures
        r == starts_with(v@, p@),
{
    let m = p.len();
    if v.len() < m {
        return false;
    }
    for i in 0..m
        invariant
            m == p@.len(),
            v@.len() >= m,
            forall|j: int| 0 <= j < i ==> v@[j] == p@[j],
    {
        if v[i] != p[i] {
            proof {
                assert(v@.take(m as int)[i as int] != p@[i as int]);
            }
            return false;
        }
    }
    proof {
        assert(v@.take(m as int) =~= p@);
    }
    true
}

/// The rest of `v` after `from`, cut at the first comma.
fn field_after(v: &Vec<char>, from: usize) -> (r: Vec<char>)
    requires
        from <= v@.len(),
    ensures
        r@ == first_field(v@.skip(from as int)),
{
    let mut rest: Vec<char> = Vec::new();
    let n = v.len();
    let mut k = from;
    while k < n
        invariant
            from <= k <= n,
            n == v@.len(),
            rest@ == v@.subrange(from as int, k as int),
        decreases n - k,
    {
        rest.push(v[k]);
        proof {
            assert(rest@ =~= v@.subrange(from as int, k + 1));
        }
        k += 1;
    }
    proof {
        assert(rest@ =~= v@.skip(from as int));
    }
    match find_char(&rest, ',') {
        None => rest,
        Some(i) => {
            let mut field: Vec<char> = Vec::new();
            let mut t: usize = 0;
            while t < i
                invariant
                    t <= i,
                    i <= rest@.len(),
                    field@ == rest@.subrange(0, t as int),
                decreases i - t,
            {
                field.push(rest[t]);
                proof {
                    assert(field@ =~= rest@.subrange(0, t + 1));
                }
                t += 1;
            }
            proof {
                assert(field@ =~= rest@.take(i as int));
            }
            field
        },
    }
}

/// A keyboard layout choice: the layout name and its variant, the variant
/// possibly empty.
pub struct LayoutChoice {
    pub layout: String,
    pub variant: String,
}

/// Reads the layout and variant out of a keyboard configuration text: the
/// settings its lines end with, or nothing when no layout is named.
pub fn parse_layout_config(content: &str) -> (r: Option<LayoutChoice>)
    ensures
        r is Some <==> config_layout(content@).len() > 0,
        r matches Some(lv) ==> lv.layout@ == config_layout(content@) && lv.variant@
            == config_variant(content@),
{
    let chars = crate::strutil::chars_of(content);
    let mut layout: Vec<char> = Vec::new();
    let mut variant: Vec<char> = Vec::new();
    let mut cur: Vec<char> = Vec::new();
    let n = chars.len();
    proof {
        assert(layout@ =~= layout_scan(content@, 0).0);
        assert(variant@ =~= layout_scan(content@, 0).1);
        assert(cur@ =~= layout_scan(content@, 0).2);
    }
    for i in 0..n
        invariant
            n == chars@.len(),
            chars@ == content@,
            layout@ == (layout_scan(content@, i as int).0),
            variant@ == (layout_scan(content@, i as int).1),
            cur@ == (layout_scan(content@, i as int).2),
    {
        proof {
            assert(layout_scan(content@, i + 1) == (if content@[i as int] == '\n' {
                let applied = apply_config_line(
                    (layout_scan(content@, i as int).0, layout_scan(content@, i as int).1),
                    layout_scan(content@, i as int).2,
                );
                (applied.0, applied.1, Seq::<char>::empty())
            } else {
                (
                    layout_scan(content@, i as int).0,
                    layout_scan(content@, i as int).1,
                    layout_scan(content@, i as int).2.push(content@[i as int]),
                )
            }));
        }
        if chars[i] == '\n' {
            apply_line(&mut layout, &mut variant, &cur);
            cur.clear();
            proof {
                assert(cur@ =~= layout_scan(content@, i + 1).2);
            }
        } else {
            cur.push(chars[i]);
        }
    }
    apply_line(&mut layout, &mut variant, &cur);
    if layout.len() == 0 {
        None
    } else {
        Some(LayoutChoice {
            layout: crate::strutil::string_from_chars(&layout),
            variant: crate::strutil::string_from_chars(&variant),
        })
    }
}

} // verus!
