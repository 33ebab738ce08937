//! The glyph atlas: a lookup from supported characters (digits, colon,
//! space) to fixed-height blocks of ASCII-art lines, and helpers that render
//! one horizontal scan line of a whole string.

use vstd::prelude::*;

verus! {

/// Height of every glyph block, in scan lines.
pub const SCAN_COUNT: usize = 6;

/// The characters the atlas supports: digits, colon and space. Any other
/// character renders as a blank (empty) column.
pub open spec fn spec_supported(c: char) -> bool {
    c == '0' || c == '1' || c == '2' || c == '3' || c == '4' || c == '5' || c == '6' || c == '7'
        || c == '8' || c == '9' || c == ':' || c == ' '
}

/// The full glyph block of a supported character: exactly `SCAN_COUNT` lines
/// of ASCII art. Unsupported characters have no block.
pub open spec fn spec_glyph(c: char) -> Seq<Seq<char>> {
    if c == '0' {
        seq![r" _____ "@, r"|  _  |"@, r"| |/' |"@, r"|  /| |"@, r"\ |_/ /"@, r" \___/ "@]
    } else if c == '1' {
        seq![r" __  "@, r"/  | "@, r"`| | "@, r" | | "@, r"_| |_"@, r"\___/"@]
    } else if c == '2' {
        seq![r" _____ "@, r"/ __  \"@, r"`' / /'"@, r"  / /  "@, r"./ /___"@, r"\_____/"@]
    } else if c == '3' {
        seq![r" _____ "@, r"|____ |"@, r"    / /"@, r"    \ \"@, r".___/ /"@, r"\____/ "@]
    } else if c == '4' {
        seq![r"   ___ "@, r"  /   |"@, r" / /| |"@, r"/ /_| |"@, r"\___  |"@, r"    |_/"@]
    } else if c == '5' {
        seq![r" _____ "@, r"|  ___|"@, r"|___ \ "@, r"    \ \"@, r"/\__/ /"@, r"\____/ "@]
    } else if c == '6' {
        seq![r"  ____ "@, r" / ___|"@, r"/ /___ "@, r"| ___ \"@, r"| \_/ |"@, r"\_____/"@]
    } else if c == '7' {
        seq![r" ______"@, r"|___  /"@, r"   / / "@, r"  / /  "@, r"./ /   "@, r"\_/    "@]
    } else if c == '8' {
        seq![r" _____ "@, r"|  _  |"@, r" \ V / "@, r" / _ \ "@, r"| |_| |"@, r"\_____/"@]
    } else if c == '9' {
        seq![r" _____ "@, r"|  _  |"@, r"| |_| |"@, r"\____ |"@, r".___/ /"@, r"\____/ "@]
    } else if c == ':' {
        seq![r"   "@, r"(_)"@, r"   "@, r" _ "@, r"(_)"@, r"   "@]
    } else if c == ' ' {
        seq![r" "@, r" "@, r" "@, r" "@, r" "@, r" "@]
    } else {
        Seq::empty()
    }
}

/// One scan line of one character: line `line` of the glyph block for a
/// supported character, the empty line for an unsupported one.
pub open spec fn spec_scan(c: char, line: int) -> Seq<char> {
    if spec_supported(c) && 0 <= line < SCAN_COUNT {
        spec_glyph(c)[line]
    } else {
        Seq::empty()
    }
}

/// One scan line of a whole string: the concatenation of the per-character
/// scan lines, in input order.
pub open spec fn spec_string_scan(s: Seq<char>, line: int) -> Seq<char>
    decreases s.len(),
{
    if s.len() == 0 {
        Seq::empty()
    } else {
        spec_string_scan(s.drop_last(), line) + spec_scan(s.last(), line)
    }
}

/// The width every line of a supported character's glyph block shares.
pub open spec fn spec_glyph_width(c: char) -> nat {
    if c == '1' {
        5
    } else if c == ':' {
        3
    } else if c == ' ' {
        1
    } else {
        7
    }
}

/// The atlas key stored at position `i` of the mapping, in insertion order.
pub open spec fn spec_key_at(i: int) -> char {
    if i == 0 {
        '0'
    } else if i == 1 {
        '1'
    } else if i == 2 {
        '2'
    } else if i == 3 {
        '3'
    } else if i == 4 {
        '4'
    } else if i == 5 {
        '5'
    } else if i == 6 {
        '6'
    } else if i == 7 {
        '7'
    } else if i == 8 {
        '8'
    } else if i == 9 {
        '9'
    } else if i == 10 {
        ':'
    } else {
        ' '
    }
}

/// Contains a map for converting various characters into lines of ASCII art.
pub struct TextMapper {
    /// Mappings between a character and its corresponding ASCII art.
    map: Vec<(char, Vec<&'static str>)>,
    /// Number of lines comprising the ASCII art.
    scans: usize,
}

impl TextMapper {
    /// One stored entry agrees with the glyph table.
    spec fn entry_wf(e: (char, Vec<&'static str>)) -> bool {
        &&& spec_supported(e.0)
        &&& e.1@.len() == SCAN_COUNT
        &&& forall|j: int| 0 <= j < SCAN_COUNT ==> (#[trigger] e.1@[j])@ == spec_scan(e.0, j)
    }

    /// The mapping holds every supported character, in insertion order, each
    /// bound to its full glyph block.
    pub closed spec fn wf(self) -> bool {
        &&& self.scans == SCAN_COUNT
        &&& self.map@.len() == 12
        &&& forall|i: int| 0 <= i < 12 ==> (#[trigger] self.map@[i]).0 == spec_key_at(i)
        &&& forall|i: int| 0 <= i < 12 ==> Self::entry_wf(#[trigger] self.map@[i])
    }

    /// Create a new `TextMapper` and initialize the font mappings.
    pub fn new() -> (r: Self)
        ensures
            r.wf(),
    {
        let mut map: Vec<(char, Vec<&'static str>)> = Vec::new();

        map.push((
            '0',
            vec![r" _____ ", r"|  _  |", r"| |/' |", r"|  /| |", r"\ |_/ /", r" \___/ "],
        ));

        map.push(('1', vec![r" __  ", r"/  | ", r"`| | ", r" | | ", r"_| |_", r"\___/"]));

        map.push((
            '2',
            vec![r" _____ ", r"/ __  \", r"`' / /'", r"  / /  ", r"./ /___", r"\_____/"],
        ));

        map.push((
            '3',
            vec![r" _____ ", r"|____ |", r"    / /", r"    \ \", r".___/ /", r"\____/ "],
        ));

        map.push((
            '4',
            vec![r"   ___ ", r"  /   |", r" / /| |", r"/ /_| |", r"\___  |", r"    |_/"],
        ));

        map.push((
            '5',
            vec![r" _____ ", r"|  ___|", r"|___ \ ", r"    \ \", r"/\__/ /", r"\____/ "],
        ));

        map.push((
            '6',
            vec![r"  ____ ", r" / ___|", r"/ /___ ", r"| ___ \", r"| \_/ |", r"\_____/"],
        ));

        map.push((
            '7',
            vec![r" ______", r"|___  /", r"   / / ", r"  / /  ", r"./ /   ", r"\_/    "],
        ));

        map.push((
            '8',
            vec![r" _____ ", r"|  _  |", r" \ V / ", r" / _ \ ", r"| |_| |", r"\_____/"],
        ));

        map.push((
            '9',
            vec![r" _____ ", r"|  _  |", r"| |_| |", r"\____ |", r".___/ /", r"\____/ "],
        ));

        map.push((':', vec![r"   ", r"(_)", r"   ", r" _ ", r"(_)", r"   "]));

        map.push((' ', vec![r" ", r" ", r" ", r" ", r" ", r" "]));

        let mapper = TextMapper { map, scans: SCAN_COUNT };

        proof {
            assert forall|i: int| 0 <= i < 12 implies (#[trigger] mapper.map@[i]).0 == spec_key_at(
                i,
            ) && Self::entry_wf(mapper.map@[i]) by {
                assert(Self::entry_wf(mapper.map@[0]));
                assert(Self::entry_wf(mapper.map@[1]));
                assert(Self::entry_wf(mapper.map@[2]));
                assert(Self::entry_wf(mapper.map@[3]));
                assert(Self::entry_wf(mapper.map@[4]));
                assert(Self::entry_wf(mapper.map@[5]));
                assert(Self::entry_wf(mapper.map@[6]));
                assert(Self::entry_wf(mapper.map@[7]));
                assert(Self::entry_wf(mapper.map@[8]));
                assert(Self::entry_wf(mapper.map@[9]));
                assert(Self::entry_wf(mapper.map@[10]));
                assert(Self::entry_wf(mapper.map@[11]));
            }
        }

        mapper
    }

    /// Get a single line of the ASCII art for a given character: line `line`
    /// of the glyph block for a supported character, the empty string for an
    /// unsupported one.
    pub fn get_scan(&self, c: &char, line: usize) -> (r: String)
        requires
            self.wf(),
            spec_supported(*c) ==> line < SCAN_COUNT,
        ensures
            r@ == spec_scan(*c, line as int),
    {
        let mut i: usize = 0;
        while i < self.map.len()
            invariant
                self.wf(),
                i <= self.map@.len(),
                spec_supported(*c) ==> line < SCAN_COUNT,
                forall|k: int| 0 <= k < i ==> (#[trigger] self.map@[k]).0 != *c,
            decreases self.map@.len() - i,
        {
            if self.map[i].0 == *c {
                return String::from_str(self.map[i].1[line]);
            }
            i += 1;
        }
        proof {
            if spec_supported(*c) {
                assert(spec_key_at(0) == '0');
                assert(spec_key_at(1) == '1');
                assert(spec_key_at(2) == '2');
                assert(spec_key_at(3) == '3');
                assert(spec_key_at(4) == '4');
                assert(spec_key_at(5) == '5');
                assert(spec_key_at(6) == '6');
                assert(spec_key_at(7) == '7');
                assert(spec_key_at(8) == '8');
                assert(spec_key_at(9) == '9');
                assert(spec_key_at(10) == ':');
                assert(spec_key_at(11) == ' ');
                assert(self.map@[0].0 != *c);
                assert(self.map@[1].0 != *c);
                assert(self.map@[2].0 != *c);
                assert(self.map@[3].0 != *c);
                assert(self.map@[4].0 != *c);
                assert(self.map@[5].0 != *c);
                assert(self.map@[6].0 != *c);
                assert(self.map@[7].0 != *c);
                assert(self.map@[8].0 != *c);
                assert(self.map@[9].0 != *c);
                assert(self.map@[10].0 != *c);
                assert(self.map@[11].0 != *c);
                assert(false);
            }
        }
        String::new()
    }

    /// Get a single line of ASCII art for a given string: the per-character
    /// scan lines concatenated in input order.
    pub fn get_string_scan(&self, s: &str, line: usize) -> (r: String)
        requires
            self.wf(),
            line < SCAN_COUNT,
        ensures
            r@ == spec_string_scan(s@, line as int),
    {
        let mut r = String::new();
        let n = s.unicode_len();
        let mut i: usize = 0;
        while i < n
            invariant
                self.wf(),
                line < SCAN_COUNT,
                n == s@.len(),
                i <= n,
                r@ == spec_string_scan(s@.subrange(0, i as int), line as int),
            decreases n - i,
        {
            let c = s.get_char(i);
            let piece = self.get_scan(&c, line);
            r.append(piece.as_str());
            proof {
                assert(s@.subrange(0, i + 1 as int).drop_last() =~= s@.subrange(0, i as int));
                assert(s@.subrange(0, i + 1 as int).last() == s@[i as int]);
            }
            i += 1;
        }
        proof {
            assert(s@.subrange(0, n as int) =~= s@);
        }
        r
    }

    /// Get the number of scans.
    pub fn get_num_scans(&self) -> (r: usize)
        requires
            self.wf(),
        ensures
            r == SCAN_COUNT,
    {
        self.scans
    }
}

/// Every scan line of a supported character has that character's fixed,
/// positive glyph width; every scan line of an unsupported character is
/// empty. In particular repeated scans of one character agree in width.
pub proof fn lemma_scan_width(c: char, i: int)
    requires
        0 <= i < SCAN_COUNT,
    ensures
        spec_supported(c) ==> spec_scan(c, i).len() == spec_glyph_width(c),
        spec_glyph_width(c) > 0,
        !spec_supported(c) ==> spec_scan(c, i) == Seq::<char>::empty(),
{
    reveal_strlit(r" _____ ");
    reveal_strlit(r"|  _  |");
    reveal_strlit(r"| |/' |");
    reveal_strlit(r"|  /| |");
    reveal_strlit(r"\ |_/ /");
    reveal_strlit(r" \___/ ");
    reveal_strlit(r" __  ");
    reveal_strlit(r"/  | ");
    reveal_strlit(r"`| | ");
    reveal_strlit(r" | | ");
    reveal_strlit(r"_| |_");
    reveal_strlit(r"\___/");
    reveal_strlit(r"/ __  \");
    reveal_strlit(r"`' / /'");
    reveal_strlit(r"  / /  ");
    reveal_strlit(r"./ /___");
    reveal_strlit(r"\_____/");
    reveal_strlit(r"|____ |");
    reveal_strlit(r"    / /");
    reveal_strlit(r"    \ \");
    reveal_strlit(r".___/ /");
    reveal_strlit(r"\____/ ");
    reveal_strlit(r"   ___ ");
    reveal_strlit(r"  /   |");
    reveal_strlit(r" / /| |");
    reveal_strlit(r"/ /_| |");
    reveal_strlit(r"\___  |");
    reveal_strlit(r"    |_/");
    reveal_strlit(r"|  ___|");
    reveal_strlit(r"|___ \ ");
    reveal_strlit(r"/\__/ /");
    reveal_strlit(r"  ____ ");
    reveal_strlit(r" / ___|");
    reveal_strlit(r"/ /___ ");
    reveal_strlit(r"| ___ \");
    reveal_strlit(r"| \_/ |");
    reveal_strlit(r" ______");
    reveal_strlit(r"|___  /");
    reveal_strlit(r"   / / ");
    reveal_strlit(r"./ /   ");
    reveal_strlit(r"\_/    ");
    reveal_strlit(r" \ V / ");
    reveal_strlit(r" / _ \ ");
    reveal_strlit(r"| |_| |");
    reveal_strlit(r"\____ |");
    reveal_strlit(r"   ");
    reveal_strlit(r"(_)");
    reveal_strlit(r" _ ");
    reveal_strlit(r" ");
}

/// Scanning a string distributes over concatenation: the scan line of
/// `s + t` is the scan line of `s` followed by the scan line of `t`, and the
/// empty string scans to the empty line.
pub proof fn lemma_string_scan_concat(s: Seq<char>, t: Seq<char>, line: int)
    ensures
        spec_string_scan(s + t, line) == spec_string_scan(s, line) + spec_string_scan(t, line),
        spec_string_scan(Seq::<char>::empty(), line) == Seq::<char>::empty(),
    decreases t.len(),
{
    assert(spec_string_scan(Seq::<char>::empty(), line) + Seq::<char>::empty()
        =~= spec_string_scan(Seq::<char>::empty(), line));
    if t.len() == 0 {
        assert(s + t =~= s);
        assert(spec_string_scan(s, line) + spec_string_scan(t, line) =~= spec_string_scan(
            s,
            line,
        ));
    } else {
        lemma_string_scan_concat(s, t.drop_last(), line);
        assert((s + t).drop_last() =~= s + t.drop_last());
        assert((s + t).last() == t.last());
        assert(spec_string_scan(s + t, line) == spec_string_scan(s + t.drop_last(), line)
            + spec_scan(t.last(), line));
        assert(spec_string_scan(s, line) + spec_string_scan(t.drop_last(), line) + spec_scan(
            t.last(),
            line,
        ) =~= spec_string_scan(s, line) + spec_string_scan(t, line));
    }
}

} // verus!
