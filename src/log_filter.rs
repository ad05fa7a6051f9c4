use vstd::prelude::*;

verus! {

/// Module-path prefix of the firmware's own records.
pub const OWN_PREFIX: &'static str = "xapi";

/// Fragment of the module paths of the external-memory driver.
pub const PSRAM_FRAGMENT: &'static str = "psram";

/// Module path of the radio driver's OS adapter, whose records are noisy.
pub const OS_ADAPTER_PATH: &'static str = "esp_radio::wifi::os_adapter";

/// Messages of the OS adapter that are kept where filtering by message is on.
pub const ADAPTER_KEEP_A: &'static str = "wifi_int_disable";

pub const ADAPTER_KEEP_B: &'static str = "wifi_int_restore";

pub const ADAPTER_KEEP_C: &'static str = "coex";

/// Whether OS-adapter records are sorted by their message instead of all
/// being dropped.
pub const FILTER_ADAPTER_BY_MESSAGE: bool = false;

pub open spec fn text_starts_with(s: Seq<char>, p: Seq<char>) -> bool {
    p.len() <= s.len() && s.subrange(0, p.len() as int) == p
}

pub open spec fn occurs_at(s: Seq<char>, p: Seq<char>, i: int) -> bool {
    0 <= i && i + p.len() <= s.len() && s.subrange(i, i + p.len()) == p
}

pub open spec fn text_contains(s: Seq<char>, p: Seq<char>) -> bool {
    exists|i: int| #[trigger] occurs_at(s, p, i)
}

/// The module-path rule of the log filter.
pub open spec fn path_admitted(path: Seq<char>) -> bool {
    (text_starts_with(path, OWN_PREFIX@) || text_contains(path, PSRAM_FRAGMENT@))
        && !text_contains(path, OS_ADAPTER_PATH@)
}

/// The whole rule: a record without a module path is dropped; OS-adapter
/// records pass only where sorting by message is on and the message names
/// one of the kept events.
pub open spec fn record_admitted(
    path: Option<Seq<char>>,
    message: Seq<char>,
    by_message: bool,
) -> bool {
    match path {
        None => false,
        Some(p) => {
            if !(text_starts_with(p, OWN_PREFIX@) || text_contains(p, PSRAM_FRAGMENT@)) {
                false
            } else if text_contains(p, OS_ADAPTER_PATH@) {
                by_message && (text_contains(message, ADAPTER_KEEP_A@) || text_contains(
                    message,
                    ADAPTER_KEEP_B@,
                ) || text_contains(message, ADAPTER_KEEP_C@))
            } else {
                true
            }
        },
    }
}

fn matches_at(s: &str, p: &str, i: usize) -> (r: bool)
    requires
        i + p@.len() <= s@.len(),
        s@.len() <= usize::MAX,
    ensures
        r == occurs_at(s@, p@, i as int),
{
    let n = p.unicode_len();
    let mut j: usize = 0;
    while j < n
        invariant
            n == p@.len(),
            i + n <= s@.len(),
            s@.len() <= usize::MAX,
            j <= n,
            s@.subrange(i as int, i + j) == p@.subrange(0, j as int),
        decreases n - j,
    {
        if s.get_char(i + j) != p.get_char(j) {
            assert(s@.subrange(i as int, i + n)[j as int] != p@[j as int]);
            return false;
        }
        assert(s@.subrange(i as int, i + j + 1) =~= s@.subrange(i as int, i + j).push(
            s@[i + j],
        ));
        assert(p@.subrange(0, j + 1) =~= p@.subrange(0, j as int).push(p@[j as int]));
        j = j + 1;
    }
    assert(p@ =~= p@.subrange(0, n as int));
    true
}

/// Whether `s` begins with `p`.
pub fn starts_with(s: &str, p: &str) -> (r: bool)
    ensures
        r == text_starts_with(s@, p@),
{
    if p.unicode_len() > s.unicode_len() {
        return false;
    }
    matches_at(s, p, 0)
}

/// Whether `p` occurs somewhere in `s`.
pub fn contains(s: &str, p: &str) -> (r: bool)
    ensures
        r == text_contains(s@, p@),
{
    let n = s.unicode_len();
    let m = p.unicode_len();
    if m > n {
        assert(forall|i: int| !#[trigger] occurs_at(s@, p@, i));
        return false;
    }
    if m == 0 {
        assert(s@.subrange(0, 0) =~= p@);
        assert(occurs_at(s@, p@, 0));
        return true;
    }
    let mut i: usize = 0;
    while i < n - m + 1
        invariant
            n == s@.len(),
            m == p@.len(),
            1 <= m <= n,
            i <= n - m + 1,
            forall|k: int| 0 <= k < i ==> !#[trigger] occurs_at(s@, p@, k),
        decreases n - m + 1 - i,
    {
        if matches_at(s, p, i) {
            return true;
        }
        i = i + 1;
    }
    assert(forall|k: int| !#[trigger] occurs_at(s@, p@, k));
    false
}

/// The module-path rule: the firmware's own modules and the external-memory
/// driver pass, except the radio driver's OS adapter.
pub fn path_admits(path: &str) -> (r: bool)
    ensures
        r == path_admitted(path@),
{
    (starts_with(path, OWN_PREFIX) || contains(path, PSRAM_FRAGMENT)) && !contains(
        path,
        OS_ADAPTER_PATH,
    )
}

/// Whether a record with this module path and message is printed.
pub fn admits(path: Option<&str>, message: &str, by_message: bool) -> (r: bool)
    ensures
        r == record_admitted(
            match path {
                Some(p) => Some(p@),
                None => None,
            },
            message@,
            by_message,
        ),
{
    match path {
        None => false,
        Some(p) => {
            if !(starts_with(p, OWN_PREFIX) || contains(p, PSRAM_FRAGMENT)) {
                false
            } else if contains(p, OS_ADAPTER_PATH) {
                by_message && (contains(message, ADAPTER_KEEP_A) || contains(
                    message,
                    ADAPTER_KEEP_B,
                ) || contains(message, ADAPTER_KEEP_C))
            } else {
                true
            }
        },
    }
}

/// The two CPU cores.
#[derive(Clone, Copy, PartialEq, Eq, Structural)]
pub enum Core {
    Pro,
    App,
}

pub open spec fn core_digit(c: Core) -> Seq<char> {
    match c {
        Core::Pro => seq!['0'],
        Core::App => seq!['1'],
    }
}

/// The line printed for an admitted record:
/// `cpu=<N> <module>: <level> - <message>`.
pub open spec fn line_text(cpu: Core, path: Seq<char>, level: Seq<char>, message: Seq<char>) -> Seq<
    char,
> {
    "cpu="@ + core_digit(cpu) + " "@ + path + ": "@ + level + " - "@ + message
}

/// Formats an admitted record.
pub fn record_line(cpu: Core, path: &str, level: &str, message: &str) -> (r: String)
    ensures
        r@ == line_text(cpu, path@, level@, message@),
{
    let mut out = String::from_str("cpu=");
    match cpu {
        Core::Pro => {
            proof {
                reveal_strlit("0");
                assert("0"@ =~= seq!['0']);
            }
            out.append("0");
        },
        Core::App => {
            proof {
                reveal_strlit("1");
                assert("1"@ =~= seq!['1']);
            }
            out.append("1");
        },
    }
    out.append(" ");
    out.append(path);
    out.append(": ");
    out.append(level);
    out.append(" - ");
    out.append(message);
    out
}

/// With sorting by message off, a record is printed exactly when it has a
/// module path that starts with the firmware's prefix or names the
/// external-memory driver, and does not name the radio driver's OS adapter.
pub proof fn lemma_filter_rule(path: Option<Seq<char>>, message: Seq<char>)
    ensures
        record_admitted(path, message, false) == (path is Some && path_admitted(path->0)),
{
}

} // verus!
