//! The texts the controller shows: names of processors, fans and sensors,
//! error messages, and the debug listing.
use vstd::prelude::*;

verus! {

/// `c` has the Unicode White_Space property, which `char::is_whitespace`
/// and `str::trim` go by: the 25 code points U+0009 to U+000D, U+0020,
/// U+0085, U+00A0, U+1680, U+2000 to U+200A, U+2028, U+2029, U+202F,
/// U+205F and U+3000.
pub open spec fn is_white_space(c: char) -> bool {
    let u = c as u32;
    ||| 0x09 <= u <= 0x0D
    ||| u == 0x20
    ||| u == 0x85
    ||| u == 0xA0
    ||| u == 0x1680
    ||| 0x2000 <= u <= 0x200A
    ||| u == 0x2028
    ||| u == 0x2029
    ||| u == 0x202F
    ||| u == 0x205F
    ||| u == 0x3000
}

/// `s` without its leading white space.
pub open spec fn trimmed_start(s: Seq<char>) -> Seq<char>
    decreases s.len(),
{
    if s.len() > 0 && is_white_space(s[0]) {
        trimmed_start(s.drop_first())
    } else {
        s
    }
}

/// `s` without its trailing white space.
pub open spec fn trimmed_end(s: Seq<char>) -> Seq<char>
    decreases s.len(),
{
    if s.len() > 0 && is_white_space(s.last()) {
        trimmed_end(s.drop_last())
    } else {
        s
    }
}

/// `s` without its leading and trailing white space.
pub open spec fn trimmed(s: Seq<char>) -> Seq<char> {
    trimmed_end(trimmed_start(s))
}

/// Calls `str::trim`, which returns `s` without its leading and trailing
/// white space (white space as `is_white_space` lists it).
#[verifier::external_body]
pub(crate) fn trim_text(s: &str) -> (t: &str)
    ensures
        t@ == trimmed(s@),
{
    s.trim()
}

/// The characters of `s`, in order.
pub fn chars_of(s: &str) -> (chars: Vec<char>)
    ensures
        chars@ == s@,
{
    let n = s.unicode_len();
    let mut chars: Vec<char> = Vec::new();
    let mut i: usize = 0;
    while i < n
        invariant
            n == s@.len(),
            i <= n,
            chars@ == s@.subrange(0, i as int),
        decreases n - i,
    {
        let c = s.get_char(i);
        chars.push(c);
        i = i + 1;
        assert(chars@ =~= s@.subrange(0, i as int));
    }
    assert(chars@ =~= s@);
    chars
}

/// `needle` occurs in `haystack` as a run of consecutive characters.
pub open spec fn has_substring(haystack: Seq<char>, needle: Seq<char>) -> bool {
    exists|i: int|
        0 <= i && i + needle.len() <= haystack.len() && #[trigger] haystack.subrange(
            i,
            i + needle.len(),
        ) == needle
}

/// `needle` occurs in `haystack` at position `i`.
pub open spec fn occurs_at(haystack: Seq<char>, needle: Seq<char>, i: int) -> bool {
    forall|k: int| 0 <= k < needle.len() ==> haystack[i + k] == #[trigger] needle[k]
}

/// Whether `needle` occurs in `haystack` starting at position `i`.
fn matches_at(haystack: &Vec<char>, needle: &Vec<char>, i: usize) -> (found: bool)
    requires
        i + needle@.len() <= haystack@.len(),
    ensures
        found == occurs_at(haystack@, needle@, i as int),
{
    let hl = haystack.len();
    let mut k: usize = 0;
    while k < needle.len()
        invariant
            hl == haystack@.len(),
            i + needle@.len() <= haystack@.len(),
            k <= needle@.len(),
            forall|j: int| 0 <= j < k ==> haystack@[i + j] == #[trigger] needle@[j],
        decreases needle@.len() - k,
    {
        assert(i + k < haystack@.len());
        if haystack[i + k] != needle[k] {
            return false;
        }
        k = k + 1;
    }
    true
}

/// Whether `needle` occurs in `haystack` as a run of consecutive characters.
pub fn contains_chars(haystack: &Vec<char>, needle: &Vec<char>) -> (found: bool)
    ensures
        found == has_substring(haystack@, needle@),
{
    let ghost h = haystack@;
    let ghost n = needle@;
    if needle.len() > haystack.len() {
        assert(!has_substring(h, n));
        return false;
    }
    if needle.len() == 0 {
        assert(h.subrange(0, 0 + n.len() as int) =~= n);
        return true;
    }
    let hl = haystack.len();
    let last = hl - needle.len();
    let mut i: usize = 0;
    while i <= last
        invariant
            last == h.len() - n.len(),
            hl == h.len(),
            n.len() > 0,
            i <= last + 1,
            h == haystack@,
            n == needle@,
            forall|j: int| 0 <= j < i ==> #[trigger] h.subrange(j, j + n.len()) != n,
        decreases last + 1 - i,
    {
        if matches_at(haystack, needle, i) {
            assert(h.subrange(i as int, i + n.len()) =~= n);
            return true;
        }
        assert(h.subrange(i as int, i + n.len()) != n) by {
            let k = choose|k: int| 0 <= k < n.len() && h[i + k] != #[trigger] n[k];
            assert(h.subrange(i as int, i + n.len())[k] == h[i + k]);
        }
        i = i + 1;
    }
    assert(!has_substring(h, n)) by {
        if has_substring(h, n) {
            let j = choose|j: int|
                0 <= j && j + n.len() <= h.len() && #[trigger] h.subrange(j, j + n.len()) == n;
            assert(j < i);
        }
    }
    false
}

/// Whether the text `needle` occurs in the text `haystack`, as
/// `str::contains` finds it.
pub fn contains_text(haystack: &str, needle: &str) -> (found: bool)
    ensures
        found == has_substring(haystack@, needle@),
{
    let h = chars_of(haystack);
    let n = chars_of(needle);
    contains_chars(&h, &n)
}

/// `c` with an ASCII capital letter turned into its small letter.
pub open spec fn ascii_lower(c: char) -> char {
    if 'A' <= c && c <= 'Z' {
        ((c as u32) + 32) as char
    } else {
        c
    }
}

/// `s` with every ASCII capital letter turned into its small letter, as
/// `str::to_ascii_lowercase` gives it.
pub open spec fn ascii_lowercase(s: Seq<char>) -> Seq<char> {
    s.map_values(|c: char| ascii_lower(c))
}

/// `c` with an ASCII capital letter turned into its small letter.
pub fn ascii_lower_char(c: char) -> (lower: char)
    ensures
        lower == ascii_lower(c),
{
    if 'A' <= c && c <= 'Z' {
        let code: u8 = c as u8;
        assert(code as u32 == c as u32);
        let small: u8 = code + 32;
        small as char
    } else {
        c
    }
}

/// The characters of `s` with every ASCII capital letter made small.
pub fn ascii_lowercase_chars(s: &str) -> (lower: Vec<char>)
    ensures
        lower@ == ascii_lowercase(s@),
{
    let chars = chars_of(s);
    let mut lower: Vec<char> = Vec::new();
    let mut i: usize = 0;
    while i < chars.len()
        invariant
            chars@ == s@,
            i <= chars@.len(),
            lower@.len() == i,
            forall|j: int| 0 <= j < i ==> #[trigger] lower@[j] == ascii_lower(chars@[j]),
        decreases chars@.len() - i,
    {
        let c = ascii_lower_char(chars[i]);
        lower.push(c);
        i = i + 1;
    }
    assert(lower@ =~= ascii_lowercase(s@));
    lower
}

/// The decimal digit character for `d`.
pub open spec fn digit_char(d: int) -> char {
    (48 + d) as char
}

/// The decimal digits of `n`, most significant first, without leading
/// zeros ("0" for zero).
pub open spec fn natural_text(n: nat) -> Seq<char>
    decreases n,
{
    if n < 10 {
        seq![digit_char(n as int)]
    } else {
        natural_text(n / 10).push(digit_char((n % 10) as int))
    }
}

/// The decimal text of `n`, with a minus sign before a negative number.
pub open spec fn decimal_spec(n: int) -> Seq<char> {
    if n < 0 {
        seq!['-'] + natural_text((-n) as nat)
    } else {
        natural_text(n as nat)
    }
}

/// The text of the digit `d`.
fn digit_text(d: u32) -> (t: &'static str)
    requires
        d < 10,
    ensures
        t@ == seq![digit_char(d as int)],
{
    proof {
        reveal_strlit("0");
        reveal_strlit("1");
        reveal_strlit("2");
        reveal_strlit("3");
        reveal_strlit("4");
        reveal_strlit("5");
        reveal_strlit("6");
        reveal_strlit("7");
        reveal_strlit("8");
        reveal_strlit("9");
    }
    match d {
        0 => "0",
        1 => "1",
        2 => "2",
        3 => "3",
        4 => "4",
        5 => "5",
        6 => "6",
        7 => "7",
        8 => "8",
        _ => "9",
    }
}

/// Appends the decimal digits of `n` to `out`.
fn append_natural(out: &mut String, n: u32)
    ensures
        final(out)@ == old(out)@ + natural_text(n as nat),
    decreases n,
{
    if n >= 10 {
        append_natural(out, n / 10);
    }
    out.append(digit_text(n % 10));
    proof {
        if n >= 10 {
            assert(old(out)@ + natural_text(n as nat) =~= old(out)@ + natural_text((n / 10) as nat)
                + seq![digit_char((n % 10) as int)]);
        } else {
            assert(natural_text(n as nat) == seq![digit_char((n % 10) as int)]);
        }
    }
}

/// The decimal text of `n`, as `i32::to_string` writes it.
pub fn decimal_text(n: i32) -> (text: String)
    ensures
        text@ == decimal_spec(n as int),
{
    let mut text = String::new();
    if n < 0 {
        text.append("-");
        proof {
            reveal_strlit("-");
        }
        let magnitude: u32 = if n == i32::MIN {
            2147483648u32
        } else {
            (-n) as u32
        };
        append_natural(&mut text, magnitude);
    } else {
        append_natural(&mut text, n as u32);
    }
    text
}

/// The processor name shown: the brand the system reports, without its
/// surrounding white space, or, when there is none, "Unknown processor"
/// with the architecture.
pub open spec fn processor_name_spec(brand: Option<Seq<char>>, architecture: Seq<char>) -> Seq<char> {
    match brand {
        Some(b) => if trimmed(b).len() > 0 {
            trimmed(b)
        } else {
            "Unknown processor ("@ + architecture + ")"@
        },
        None => "Unknown processor ("@ + architecture + ")"@,
    }
}

/// The processor name shown for the brand of the first processor the
/// system reports (`None` when it reports none) on the architecture
/// `architecture` (see `processor_name_spec`).
pub fn processor_name_from(brand: Option<&str>, architecture: &str) -> (name: String)
    ensures
        name@ == processor_name_spec(
            match brand {
                Some(b) => Some(b@),
                None => None,
            },
            architecture@,
        ),
{
    match brand {
        Some(b) => {
            let t = trim_text(b);
            if !t.is_empty() {
                return String::from_str(t);
            }
        },
        None => {},
    }
    let mut name = String::from_str("Unknown processor (");
    name.append(architecture);
    name.append(")");
    name
}

/// The name of the fan at position `id` whose sensor is called `name`: its
/// sensor name, or "Fan" and its position when the sensor name is blank.
pub open spec fn fan_base_name(id: i32, name: Seq<char>) -> Seq<char> {
    if trimmed(name).len() == 0 {
        "Fan "@ + decimal_spec(id as int)
    } else {
        name
    }
}

/// The name shown for a fan: its base name where that mentions "Fan",
/// else the base name followed by the sensor identifier in brackets.
pub open spec fn fan_display_name_spec(id: i32, name: Seq<char>, identifier: Seq<char>) -> Seq<char> {
    if has_substring(fan_base_name(id, name), "Fan"@) {
        fan_base_name(id, name)
    } else {
        fan_base_name(id, name) + " ("@ + identifier + ")"@
    }
}

/// The name shown for the fan at position `id` whose sensor has the name
/// `name` and the identifier `identifier` (see `fan_display_name_spec`).
pub fn fan_display_name(id: i32, name: &str, identifier: &str) -> (shown: String)
    ensures
        shown@ == fan_display_name_spec(id, name@, identifier@),
{
    let base = if trim_text(name).is_empty() {
        let mut base = String::from_str("Fan ");
        let number = decimal_text(id);
        base.append(number.as_str());
        base
    } else {
        String::from_str(name)
    };
    if contains_text(base.as_str(), "Fan") {
        base
    } else {
        let mut shown = base;
        shown.append(" (");
        shown.append(identifier);
        shown.append(")");
        shown
    }
}

/// The name shown for a temperature sensor: its name, or its identifier
/// when the name is blank.
pub fn sensor_display_name(name: &str, identifier: &str) -> (shown: String)
    ensures
        shown@ == if trimmed(name@).len() == 0 {
            identifier@
        } else {
            name@
        },
{
    if trim_text(name).is_empty() {
        String::from_str(identifier)
    } else {
        String::from_str(name)
    }
}

/// The error reported for a failed PowerShell command: its error output,
/// else its standard output, each without surrounding white space, else a
/// fixed text.
pub fn powershell_failure_message(stderr: &str, stdout: &str) -> (message: String)
    ensures
        message@ == if trimmed(stderr@).len() > 0 {
            trimmed(stderr@)
        } else if trimmed(stdout@).len() > 0 {
            trimmed(stdout@)
        } else {
            "PowerShell command failed without output"@
        },
{
    let err = trim_text(stderr);
    if !err.is_empty() {
        return String::from_str(err);
    }
    let out = trim_text(stdout);
    if !out.is_empty() {
        return String::from_str(out);
    }
    String::from_str("PowerShell command failed without output")
}

/// The error reported when a fan control value could not be written.
pub fn control_failure_message(error: &str) -> (message: String)
    ensures
        message@ == "Failed to set fan control via LibreHardwareMonitor\n"@ + error@
            + "\nIf this persists, verify your board exposes writable fan controls"@,
{
    let mut message = String::from_str("Failed to set fan control via LibreHardwareMonitor\n");
    message.append(error);
    message.append("\nIf this persists, verify your board exposes writable fan controls");
    message
}

/// The notice shown when the hardware monitor cannot be reached and the
/// controller falls back to simulated fans.
pub fn simulation_notice(error: &str) -> (notice: String)
    ensures
        notice@ == "LibreHardwareMonitor WMI not available, using simulation mode\n"@ + error@,
{
    let mut notice = String::from_str(
        "LibreHardwareMonitor WMI not available, using simulation mode\n",
    );
    notice.append(error);
    notice
}

/// The error reported for a control signal to a fan that is not there.
pub fn fan_not_found_message(id: i32) -> (message: String)
    ensures
        message@ == "Fan "@ + decimal_spec(id as int) + " not found"@,
{
    let mut message = String::from_str("Fan ");
    let number = decimal_text(id);
    message.append(number.as_str());
    message.append(" not found");
    message
}

/// The texts `parts` joined with `separator` between each two of them.
pub open spec fn joined(parts: Seq<Seq<char>>, separator: Seq<char>) -> Seq<char>
    decreases parts.len(),
{
    if parts.len() == 0 {
        Seq::empty()
    } else if parts.len() == 1 {
        parts[0]
    } else {
        joined(parts.drop_last(), separator) + separator + parts.last()
    }
}

/// The lines `lines` joined with line breaks.
pub fn join_lines(lines: &Vec<String>) -> (text: String)
    ensures
        text@ == joined(lines@.map_values(|l: String| l@), "\n"@),
{
    let ghost parts = lines@.map_values(|l: String| l@);
    let mut text = String::new();
    let mut i: usize = 0;
    while i < lines.len()
        invariant
            parts == lines@.map_values(|l: String| l@),
            i <= lines@.len(),
            text@ == joined(parts.take(i as int), "\n"@),
        decreases lines@.len() - i,
    {
        if i > 0 {
            text.append("\n");
        }
        text.append(lines[i].as_str());
        proof {
            assert(parts.take(i + 1).drop_last() =~= parts.take(i as int));
            if i == 0 {
                assert(joined(parts.take(0), "\n"@) =~= Seq::empty());
                assert(text@ =~= parts.take(1)[0]);
            }
        }
        i = i + 1;
    }
    assert(parts.take(lines@.len() as int) =~= parts);
    text
}

/// The number the decimal digits `digits` stand for.
pub open spec fn digits_value(digits: Seq<char>) -> int
    decreases digits.len(),
{
    if digits.len() == 0 {
        0
    } else {
        10 * digits_value(digits.drop_last()) + (digits.last() as int - 48)
    }
}

/// Law: the decimal text of a number is made of digits only, has no
/// leading zero (but for zero itself), and stands for the number; a
/// negative number gets one minus sign in front.
pub proof fn law_decimal_text_meaning(n: nat)
    ensures
        natural_text(n).len() > 0,
        forall|k: int|
            0 <= k < natural_text(n).len() ==> '0' <= #[trigger] natural_text(n)[k] <= '9',
        n > 0 ==> natural_text(n)[0] != '0',
        digits_value(natural_text(n)) == n,
        decimal_spec(n as int) == natural_text(n),
        n > 0 ==> decimal_spec(-(n as int)) == seq!['-'] + natural_text(n),
    decreases n,
{
    if n >= 10 {
        law_decimal_text_meaning(n / 10);
        let t = natural_text(n);
        assert(t.drop_last() =~= natural_text(n / 10));
        assert(t[0] == natural_text(n / 10)[0]);
        let d = (n % 10) as int;
        assert(t.last() == digit_char(d));
        assert(digit_char(d) as int == 48 + d);
        assert(n == 10 * (n / 10) + n % 10);
        assert(digits_value(t) == 10 * digits_value(t.drop_last()) + (t.last() as int - 48));
        assert(digits_value(t) == 10 * (n / 10) + d);
    } else {
        let t = natural_text(n);
        assert(t.drop_last() =~= Seq::<char>::empty());
        assert(digit_char(n as int) as int == 48 + n);
        assert(digits_value(t) == 10 * digits_value(t.drop_last()) + (t.last() as int - 48));
    }
}

/// Law: the name shown for a fan. A blank sensor name gives "Fan" and the
/// fan's position; a sensor name that mentions "Fan" is shown as it is;
/// any other name is shown with the sensor identifier in brackets.
pub proof fn law_fan_display_name_meaning(id: i32, name: Seq<char>, identifier: Seq<char>)
    ensures
        trimmed(name).len() == 0 ==> fan_display_name_spec(id, name, identifier) == "Fan "@
            + decimal_spec(id as int),
        trimmed(name).len() > 0 && has_substring(name, "Fan"@) ==> fan_display_name_spec(
            id,
            name,
            identifier,
        ) == name,
        trimmed(name).len() > 0 && !has_substring(name, "Fan"@) ==> fan_display_name_spec(
            id,
            name,
            identifier,
        ) == name + " ("@ + identifier + ")"@,
{
    if trimmed(name).len() == 0 {
        reveal_strlit("Fan ");
        reveal_strlit("Fan");
        let base = "Fan "@ + decimal_spec(id as int);
        assert(base.subrange(0, 0 + "Fan"@.len() as int) =~= "Fan"@);
    }
}

} // verus!
