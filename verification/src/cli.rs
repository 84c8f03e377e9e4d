use vstd::prelude::*;

verus! {

/// The command line: at most one subcommand.
pub struct Cli {
    pub command: Option<Commands>,
}

/// The subcommands of the downloader.
pub enum Commands {
    /// Download the path manifest of one subset of a crawl.
    DownloadPaths {
        /// Crawl reference, e.g. CC-MAIN-2021-04 or CC-NEWS-2025-01
        snapshot: String,
        /// Data type
        data_type: DataType,
        /// Destination folder
        dst: String,
    },
    /// Download the files that a path manifest lists.
    Download {
        /// Path file
        path_file: String,
        /// Destination folder
        dst: String,
        /// Download files without the folder structure (WARC/WET/WAT files only)
        files_only: bool,
        /// Enumerate output files for the Ungoliant pipeline (WET files only)
        numbered: bool,
        /// Number of threads to use
        threads: usize,
        /// Maximum number of retries per file
        retries: usize,
        /// Print progress
        progress: bool,
        /// Abort all downloads on unrecoverable errors (401, 403, 404)
        strict: bool,
    },
}

/// The subsets of a crawl whose path manifest can be downloaded.
#[derive(Clone, Copy, PartialEq, Eq, Structural, PartialOrd, Ord, Debug)]
pub enum DataType {
    Segment,
    Warc,
    Wat,
    Wet,
    Robotstxt,
    Non200responses,
    CcIndex,
    CcIndexTable,
}

/// The name under which a subset is published (and accepted on the command line).
pub open spec fn data_type_name(d: DataType) -> Seq<char> {
    match d {
        DataType::Segment => "segment"@,
        DataType::Warc => "warc"@,
        DataType::Wat => "wat"@,
        DataType::Wet => "wet"@,
        DataType::Robotstxt => "robotstxt"@,
        DataType::Non200responses => "non200responses"@,
        DataType::CcIndex => "cc-index"@,
        DataType::CcIndexTable => "cc-index-table"@,
    }
}

impl DataType {
    /// The published name of this subset.
    pub fn as_str(&self) -> (name: &str)
        ensures
            name@ == data_type_name(*self),
    {
        match self {
            DataType::Segment => "segment",
            DataType::Warc => "warc",
            DataType::Wat => "wat",
            DataType::Wet => "wet",
            DataType::Robotstxt => "robotstxt",
            DataType::Non200responses => "non200responses",
            DataType::CcIndex => "cc-index",
            DataType::CcIndexTable => "cc-index-table",
        }
    }
}

/// Different subsets are published under different names, so a name
/// read back from the command line or a URL names exactly one subset.
pub proof fn lemma_data_type_names_distinct(a: DataType, b: DataType)
    requires
        data_type_name(a) == data_type_name(b),
    ensures
        a == b,
{
    reveal_strlit("segment");
    reveal_strlit("warc");
    reveal_strlit("wat");
    reveal_strlit("wet");
    reveal_strlit("robotstxt");
    reveal_strlit("non200responses");
    reveal_strlit("cc-index");
    reveal_strlit("cc-index-table");
    let na = data_type_name(a);
    let nb = data_type_name(b);
    assert(na.len() == nb.len());
    assert(na[1] == nb[1]);
    assert(na[0] == nb[0]);
}

/// An ASCII decimal digit, the class `[0-9]`.
pub open spec fn is_ascii_digit(c: char) -> bool {
    '0' <= c && c <= '9'
}

/// Every character of `d` is an ASCII decimal digit.
pub open spec fn all_ascii_digits(d: Seq<char>) -> bool {
    forall|i: int| 0 <= i < d.len() ==> is_ascii_digit(#[trigger] d[i])
}

/// The two crawl series that are published: `CC-MAIN` and `CC-NEWS`.
pub open spec fn is_crawl_series(p: Seq<char>) -> bool {
    ||| p == seq!['C', 'C', '-', 'M', 'A', 'I', 'N']
    ||| p == seq!['C', 'C', '-', 'N', 'E', 'W', 'S']
}

/// The crawl reference format `CC-MAIN-YYYY-WW` or `CC-NEWS-YYYY-MM`:
/// a series, a dash, four digits, a dash and two digits, and nothing else.
pub open spec fn is_crawl_name(s: Seq<char>) -> bool {
    &&& s.len() == 15
    &&& is_crawl_series(s.subrange(0, 7))
    &&& s[7] == '-'
    &&& all_ascii_digits(s.subrange(8, 12))
    &&& s[12] == '-'
    &&& all_ascii_digits(s.subrange(13, 15))
}

/// The digits of a crawl reference are exactly the characters `'0'` to `'9'`.
pub proof fn lemma_ascii_digit_is_zero_to_nine(c: char)
    ensures
        is_ascii_digit(c) <==> ('0' <= c && c <= '9'),
        is_ascii_digit(c) <==> (48 <= (c as u32) && (c as u32) <= 57),
{
}

/// The crawl reference format written out character by character: `CC-MAIN-`
/// or `CC-NEWS-`, any four characters `'0'`..`'9'`, a dash and any two
/// characters `'0'`..`'9'`, and nothing else, with no further condition on
/// the year or the week.
pub proof fn lemma_crawl_name_written_out(s: Seq<char>)
    ensures
        is_crawl_name(s) <==> (
            s.len() == 15
            && s[0] == 'C' && s[1] == 'C' && s[2] == '-'
            && ((s[3] == 'M' && s[4] == 'A' && s[5] == 'I' && s[6] == 'N')
                || (s[3] == 'N' && s[4] == 'E' && s[5] == 'W' && s[6] == 'S'))
            && s[7] == '-'
            && '0' <= s[8] && s[8] <= '9'
            && '0' <= s[9] && s[9] <= '9'
            && '0' <= s[10] && s[10] <= '9'
            && '0' <= s[11] && s[11] <= '9'
            && s[12] == '-'
            && '0' <= s[13] && s[13] <= '9'
            && '0' <= s[14] && s[14] <= '9'
        ),
{
    if s.len() == 15 {
        let p = s.subrange(0, 7);
        let y = s.subrange(8, 12);
        let w = s.subrange(13, 15);
        assert(p =~= seq![s[0], s[1], s[2], s[3], s[4], s[5], s[6]]);
        assert(y[0] == s[8] && y[1] == s[9] && y[2] == s[10] && y[3] == s[11]);
        assert(w[0] == s[13] && w[1] == s[14]);
        if is_crawl_series(p) {
            assert(p[3] == s[3]);
        }
    }
}

/// The message with which a crawl reference in another format is refused.
pub open spec fn crawl_format_message() -> Seq<char> {
    "Please use the CC-MAIN-YYYY-WW or the CC-NEWS-YYYY-MM format."@
}

/// The text that std's `str::to_uppercase` makes of a text: each character
/// replaced by its Unicode uppercase mapping (which may be several characters).
/// It depends on the text alone.
pub uninterp spec fn unicode_uppercase(s: Seq<char>) -> Seq<char>;

/// Every character of `s` is ASCII.
pub open spec fn is_ascii_text(s: Seq<char>) -> bool {
    forall|i: int| 0 <= i < s.len() ==> (#[trigger] s[i] as u32) < 128
}

/// The ASCII upper-case form of a character: `a`-`z` become `A`-`Z`, every
/// other character stays.
pub open spec fn ascii_upper_char(c: char) -> char {
    if 'a' <= c && c <= 'z' {
        ((c as int) - 32) as char
    } else {
        c
    }
}

/// The ASCII lower-case form of a character: `A`-`Z` become `a`-`z`, every
/// other character stays.
pub open spec fn ascii_lower_char(c: char) -> char {
    if 'A' <= c && c <= 'Z' {
        ((c as int) + 32) as char
    } else {
        c
    }
}

/// A text with each character in its ASCII upper-case form.
pub open spec fn ascii_uppercase(s: Seq<char>) -> Seq<char> {
    s.map_values(|c: char| ascii_upper_char(c))
}

/// A text with each character in its ASCII lower-case form.
pub open spec fn ascii_lowercase(s: Seq<char>) -> Seq<char> {
    s.map_values(|c: char| ascii_lower_char(c))
}

/// Calls `str::to_uppercase`. Claimed: the result is `unicode_uppercase` of the
/// argument, and on ASCII text it is the character-by-character ASCII
/// upper-case form (Unicode maps `a`-`z` to `A`-`Z` and leaves the other ASCII
/// characters as they are). Nothing more is claimed of the Unicode mapping.
#[verifier::external_body]
fn to_uppercase(s: &str) -> (upper: String)
    ensures
        upper@ == unicode_uppercase(s@),
        is_ascii_text(s@) ==> upper@ == ascii_uppercase(s@),
{
    s.to_uppercase()
}

fn is_digit_char(c: char) -> (b: bool)
    ensures
        b == is_ascii_digit(c),
{
    '0' <= c && c <= '9'
}

/// Whether `s` is in the crawl reference format.
pub fn is_crawl_name_str(s: &str) -> (b: bool)
    ensures
        b == is_crawl_name(s@),
{
    let n = s.unicode_len();
    if n != 15 {
        return false;
    }
    let c0 = s.get_char(0);
    let c1 = s.get_char(1);
    let c2 = s.get_char(2);
    let c3 = s.get_char(3);
    let c4 = s.get_char(4);
    let c5 = s.get_char(5);
    let c6 = s.get_char(6);
    let main = c3 == 'M' && c4 == 'A' && c5 == 'I' && c6 == 'N';
    let news = c3 == 'N' && c4 == 'E' && c5 == 'W' && c6 == 'S';
    let series = c0 == 'C' && c1 == 'C' && c2 == '-' && (main || news);
    proof {
        let p = s@.subrange(0, 7);
        // the first seven characters, as read
        assert(p =~= seq![c0, c1, c2, c3, c4, c5, c6]);
    }
    if !series {
        return false;
    }
    if s.get_char(7) != '-' || s.get_char(12) != '-' {
        return false;
    }
    let mut i: usize = 8;
    while i < 12
        invariant
            8 <= i <= 12,
            s@.len() == 15,
            forall|j: int| 8 <= j < i ==> is_ascii_digit(#[trigger] s@[j]),
        decreases 12 - i,
    {
        if !is_digit_char(s.get_char(i)) {
            assert(s@.subrange(8, 12)[i - 8] == s@[i as int]);
            return false;
        }
        i = i + 1;
    }
    let mut k: usize = 13;
    while k < 15
        invariant
            13 <= k <= 15,
            s@.len() == 15,
            forall|j: int| 13 <= j < k ==> is_ascii_digit(#[trigger] s@[j]),
        decreases 15 - k,
    {
        if !is_digit_char(s.get_char(k)) {
            assert(s@.subrange(13, 15)[k - 13] == s@[k as int]);
            return false;
        }
        k = k + 1;
    }
    proof {
        assert forall|j: int| 0 <= j < 4 implies is_ascii_digit(#[trigger] s@.subrange(8, 12)[j]) by {
            assert(s@.subrange(8, 12)[j] == s@[j + 8]);
        }
        assert forall|j: int| 0 <= j < 2 implies is_ascii_digit(#[trigger] s@.subrange(13, 15)[j]) by {
            assert(s@.subrange(13, 15)[j] == s@[j + 13]);
        }
    }
    true
}

/// Checks an already upper-cased crawl reference: handed back unchanged when it
/// is in the crawl reference format, refused with the format message otherwise.
pub fn check_crawl_name(upper: String) -> (res: Result<String, String>)
    ensures
        match res {
            Ok(name) => is_crawl_name(upper@) && name == upper,
            Err(msg) => !is_crawl_name(upper@) && msg@ == crawl_format_message(),
        },
{
    if is_crawl_name_str(upper.as_str()) {
        Ok(upper)
    } else {
        Err(String::from_str("Please use the CC-MAIN-YYYY-WW or the CC-NEWS-YYYY-MM format."))
    }
}

/// What validating the crawl reference `crawl` gives: its upper-case form when
/// that is in the crawl reference format, the format message otherwise.
pub open spec fn crawl_name_outcome(crawl: Seq<char>) -> Result<Seq<char>, Seq<char>> {
    let upper = unicode_uppercase(crawl);
    if is_crawl_name(upper) {
        Ok(upper)
    } else {
        Err(crawl_format_message())
    }
}

/// Case does not matter: two references whose upper-case forms agree are
/// accepted alike, as the same name, or refused alike.
pub proof fn lemma_crawl_name_ignores_case(a: Seq<char>, b: Seq<char>)
    requires
        unicode_uppercase(a) == unicode_uppercase(b),
    ensures
        crawl_name_outcome(a) == crawl_name_outcome(b),
{
}

/// What validating an ASCII crawl reference gives: its ASCII upper-case form
/// when that is in the crawl reference format, the format message otherwise.
pub open spec fn ascii_crawl_outcome(crawl: Seq<char>) -> Result<Seq<char>, Seq<char>> {
    let upper = ascii_uppercase(crawl);
    if is_crawl_name(upper) {
        Ok(upper)
    } else {
        Err(crawl_format_message())
    }
}

/// An accepted crawl name is ASCII and is accepted again as itself:
/// validating the name that validation returned changes nothing.
pub proof fn lemma_accepted_name_is_fixed(name: Seq<char>)
    requires
        is_crawl_name(name),
    ensures
        is_ascii_text(name),
        ascii_crawl_outcome(name) == Ok::<Seq<char>, Seq<char>>(name),
{
    assert forall|i: int| 0 <= i < name.len() implies (#[trigger] name[i] as u32) < 128
        && ascii_upper_char(name[i]) == name[i] by {
        if i < 7 {
            assert(name[i] == name.subrange(0, 7)[i]);
        } else if 8 <= i < 12 {
            assert(name[i] == name.subrange(8, 12)[i - 8]);
        } else if 13 <= i {
            assert(name[i] == name.subrange(13, 15)[i - 13]);
        }
    }
    assert(ascii_uppercase(name) =~= name);
}

/// The letter case of an ASCII crawl reference never changes the result:
/// its lower-case and upper-case variants are validated exactly as it is.
pub proof fn lemma_ascii_case_ignored(crawl: Seq<char>)
    requires
        is_ascii_text(crawl),
    ensures
        is_ascii_text(ascii_lowercase(crawl)),
        is_ascii_text(ascii_uppercase(crawl)),
        ascii_crawl_outcome(ascii_lowercase(crawl)) == ascii_crawl_outcome(crawl),
        ascii_crawl_outcome(ascii_uppercase(crawl)) == ascii_crawl_outcome(crawl),
{
    assert forall|i: int| 0 <= i < crawl.len() implies
        (#[trigger] ascii_lowercase(crawl)[i] as u32) < 128
        && (ascii_uppercase(crawl)[i] as u32) < 128
        && ascii_upper_char(ascii_lowercase(crawl)[i]) == ascii_upper_char(crawl[i])
        && ascii_upper_char(ascii_uppercase(crawl)[i]) == ascii_upper_char(crawl[i]) by {
        assert((crawl[i] as u32) < 128);
    }
    assert(ascii_uppercase(ascii_lowercase(crawl)) =~= ascii_uppercase(crawl));
    assert(ascii_uppercase(ascii_uppercase(crawl)) =~= ascii_uppercase(crawl));
}

/// Validates a crawl reference given on the command line, ignoring case:
/// its upper-case form is returned when that is `CC-MAIN-YYYY-WW` or
/// `CC-NEWS-YYYY-MM`, and the format message otherwise.
pub fn crawl_name_format(crawl: &str) -> (res: Result<String, String>)
    ensures
        match res {
            Ok(name) => name@ == unicode_uppercase(crawl@) && is_crawl_name(name@),
            Err(msg) => !is_crawl_name(unicode_uppercase(crawl@)) && msg@ == crawl_format_message(),
        },
        match res {
            Ok(name) => crawl_name_outcome(crawl@) == Ok::<Seq<char>, Seq<char>>(name@),
            Err(msg) => crawl_name_outcome(crawl@) == Err::<Seq<char>, Seq<char>>(msg@),
        },
        is_ascii_text(crawl@) ==> match res {
            Ok(name) => ascii_crawl_outcome(crawl@) == Ok::<Seq<char>, Seq<char>>(name@),
            Err(msg) => ascii_crawl_outcome(crawl@) == Err::<Seq<char>, Seq<char>>(msg@),
        },
{
    let crawl_ref = to_uppercase(crawl);
    check_crawl_name(crawl_ref)
}

} // verus!
