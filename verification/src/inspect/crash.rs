//! Summaries of macOS crash reports (`.ips` files): the exception, the termination,
//! whether the process ran translated, and the symbols and images that point at a
//! known cause.
use vstd::prelude::*;
use crate::inspect::steam_status::opt_string;
use crate::text::{
    contains, contains_text, lines, lines_text, split_once_char, split_once_char_text, trim, trim_char,
    trim_char_text, trim_end_char, trim_end_char_text, trimmed,
};

verus! {

/// What a crash report shows.
#[derive(Debug, Clone)]
pub struct CrashSummary {
    pub path: String,
    pub exception: Option<String>,
    pub termination: Option<String>,
    pub translated: Option<bool>,
    pub cpu_type: Option<String>,
    pub suspect_symbols: Vec<String>,
    pub suspect_images: Vec<String>,
    pub diagnosis: Option<String>,
}

/// The first line of `ls` from `i` on that holds `needle`, trimmed.
pub open spec fn first_line_with(ls: Seq<Seq<char>>, needle: Seq<char>, i: int) -> Option<Seq<char>>
    decreases ls.len() - i,
{
    if i < 0 || i >= ls.len() {
        None
    } else if contains(ls[i], needle) {
        Some(trim(ls[i]))
    } else {
        first_line_with(ls, needle, i + 1)
    }
}

/// The first line of `text` that holds `needle`, trimmed.
pub open spec fn line_with(text: Seq<char>, needle: Seq<char>) -> Option<Seq<char>> {
    first_line_with(lines(text), needle, 0)
}

/// The first line of `text` that holds `needle`, trimmed.
pub fn line_containing(text: &str, needle: &str) -> (r: Option<String>)
    ensures opt_string(r) == line_with(text@, needle@),
{
    let ls = lines_text(text);
    let mut i: usize = 0;
    while i < ls.len()
        invariant
            i <= ls.len(),
            ls.deep_view() == lines(text@),
            first_line_with(lines(text@), needle@, i as int) == line_with(text@, needle@),
        decreases ls.len() - i,
    {
        if contains_text(ls[i].as_str(), needle) {
            return Some(trimmed(ls[i].as_str()));
        }
        i = i + 1;
    }
    None
}

/// The value after the first colon on the first line that holds `key`: trimmed,
/// without trailing commas and surrounding quotes.
pub open spec fn value_after(text: Seq<char>, key: Seq<char>) -> Option<Seq<char>> {
    match line_with(text, key) {
        Some(line) => match split_once_char(line, ':') {
            Some((_, value)) => Some(trim_char(trim_end_char(trim(value), ','), '"')),
            None => None,
        },
        None => None,
    }
}

/// The value of a `"key" : value` line of a crash report.
pub fn value_after_colon(text: &str, key: &str) -> (r: Option<String>)
    ensures opt_string(r) == value_after(text@, key@),
{
    let line = match line_containing(text, key) {
        Some(l) => l,
        None => { return None; }
    };
    match split_once_char_text(line.as_str(), ':') {
        Some((_, value)) => {
            let v = trimmed(value.as_str());
            let v = trim_end_char_text(v.as_str(), ',');
            Some(trim_char_text(v.as_str(), '"'))
        }
        None => None,
    }
}

/// Whether `items` holds `item`.
pub open spec fn holds_item(items: Seq<Seq<char>>, item: Seq<char>) -> bool {
    exists|i: int| 0 <= i < items.len() && items[i] == item
}

/// The likely cause of a crash: the legacy ARC-lite initializer under Rosetta; the
/// Steam loader or overlay in the path of a global initializer; or an illegal
/// instruction under Rosetta.
pub open spec fn diagnosis_of(exception: Option<Seq<char>>, symbols: Seq<Seq<char>>, images: Seq<Seq<char>>) -> Option<Seq<char>> {
    if holds_item(symbols, "__ARCLite__load()"@) {
        Some("native macOS Isaac is crashing in the legacy ARC-lite initializer under Rosetta"@)
    } else if holds_item(symbols, "CGlobalInitter::CGlobalInitter()"@)
        && (holds_item(images, "steamloader.dylib"@) || holds_item(images, "gameoverlayrenderer.dylib"@)) {
        Some("Steam loader/overlay is present in the crash path"@)
    } else if exception matches Some(e) && (contains(e, "EXC_BAD_INSTRUCTION"@) || contains(e, "SIGILL"@)) {
        Some("native x86_64 process hit an illegal instruction under Rosetta"@)
    } else {
        None
    }
}

fn has_item(items: &Vec<String>, item: &str) -> (r: bool)
    ensures r == holds_item(items.deep_view(), item@),
{
    let mut i: usize = 0;
    while i < items.len()
        invariant i <= items.len(), forall|k: int| 0 <= k < i ==> items.deep_view()[k] != item@,
        decreases items.len() - i,
    {
        if crate::text::same_text(items[i].as_str(), item) {
            assert(items.deep_view()[i as int] == item@);
            return true;
        }
        i = i + 1;
    }
    false
}

/// The likely cause of a crash, from its exception line and the suspect symbols and
/// images found in it.
pub fn crash_diagnosis(exception: &Option<String>, suspect_symbols: &Vec<String>, suspect_images: &Vec<String>) -> (r: Option<String>)
    ensures opt_string(r) == diagnosis_of(opt_string(*exception), suspect_symbols.deep_view(), suspect_images.deep_view()),
{
    if has_item(suspect_symbols, "__ARCLite__load()") {
        return Some("native macOS Isaac is crashing in the legacy ARC-lite initializer under Rosetta".to_owned());
    }
    if has_item(suspect_symbols, "CGlobalInitter::CGlobalInitter()")
        && (has_item(suspect_images, "steamloader.dylib") || has_item(suspect_images, "gameoverlayrenderer.dylib")) {
        return Some("Steam loader/overlay is present in the crash path".to_owned());
    }
    let illegal = match exception {
        Some(e) => contains_text(e.as_str(), "EXC_BAD_INSTRUCTION") || contains_text(e.as_str(), "SIGILL"),
        None => false,
    };
    if illegal {
        return Some("native x86_64 process hit an illegal instruction under Rosetta".to_owned());
    }
    None
}

/// Of `candidates`, those that occur in `text`, in order.
pub open spec fn found_in(text: Seq<char>, candidates: Seq<Seq<char>>) -> Seq<Seq<char>>
    decreases candidates.len(),
{
    if candidates.len() == 0 {
        Seq::empty()
    } else {
        let rest = found_in(text, candidates.drop_last());
        if contains(text, candidates.last()) { rest.push(candidates.last()) } else { rest }
    }
}

fn found_texts(text: &str, candidates: &Vec<&str>) -> (r: Vec<String>)
    ensures r.deep_view() == found_in(text@, candidates@.map_values(|c: &str| c@)),
{
    let ghost cv = candidates@.map_values(|c: &str| c@);
    let mut out: Vec<String> = Vec::new();
    let mut i: usize = 0;
    while i < candidates.len()
        invariant
            i <= candidates.len(),
            cv == candidates@.map_values(|c: &str| c@),
            out.deep_view() == found_in(text@, cv.take(i as int)),
        decreases candidates.len() - i,
    {
        assert(cv.take(i + 1).drop_last() =~= cv.take(i as int));
        assert(cv.take(i + 1).last() == candidates@[i as int]@);
        if contains_text(text, candidates[i]) {
            let ghost before = out.deep_view();
            out.push(candidates[i].to_owned());
            assert(out.deep_view() =~= before.push(candidates@[i as int]@));
        }
        i = i + 1;
    }
    assert(cv.take(i as int) =~= cv);
    out
}

/// Whether `s` is the summary of the crash report at `path` with text `text`.
pub open spec fn summarizes_crash(s: CrashSummary, path: Seq<char>, text: Seq<char>) -> bool {
    &&& s.path@ == path
    &&& opt_string(s.exception) == line_with(text, "\"exception\""@)
    &&& opt_string(s.termination) == line_with(text, "\"termination\""@)
    &&& s.translated == if contains(text, "\"translated\" : true"@) {
            Some(true)
        } else if contains(text, "\"translated\" : false"@) {
            Some(false)
        } else {
            None
        }
    &&& opt_string(s.cpu_type) == value_after(text, "\"cpuType\""@)
    &&& s.suspect_symbols.deep_view() == found_in(text, seq!["__ARCLite__load()"@, "CGlobalInitter::CGlobalInitter()"@])
    &&& s.suspect_images.deep_view() == found_in(text, seq!["steamloader.dylib"@, "gameoverlayrenderer.dylib"@])
    &&& opt_string(s.diagnosis) == diagnosis_of(opt_string(s.exception), s.suspect_symbols.deep_view(), s.suspect_images.deep_view())
}

/// The summary of the crash report at `path`, whose text is `text`.
pub fn summarize_crash(path: &str, text: &str) -> (r: CrashSummary)
    ensures summarizes_crash(r, path@, text@),
{
    let exception = line_containing(text, "\"exception\"");
    let termination = line_containing(text, "\"termination\"");
    let translated = if contains_text(text, "\"translated\" : true") {
        Some(true)
    } else if contains_text(text, "\"translated\" : false") {
        Some(false)
    } else {
        None
    };
    let cpu_type = value_after_colon(text, "\"cpuType\"");
    let mut symbols: Vec<&str> = Vec::new();
    symbols.push("__ARCLite__load()");
    symbols.push("CGlobalInitter::CGlobalInitter()");
    assert(symbols@.map_values(|c: &str| c@) =~= seq!["__ARCLite__load()"@, "CGlobalInitter::CGlobalInitter()"@]);
    let mut images: Vec<&str> = Vec::new();
    images.push("steamloader.dylib");
    images.push("gameoverlayrenderer.dylib");
    assert(images@.map_values(|c: &str| c@) =~= seq!["steamloader.dylib"@, "gameoverlayrenderer.dylib"@]);
    let suspect_symbols = found_texts(text, &symbols);
    let suspect_images = found_texts(text, &images);
    let diagnosis = crash_diagnosis(&exception, &suspect_symbols, &suspect_images);
    CrashSummary {
        path: path.to_owned(),
        exception,
        termination,
        translated,
        cpu_type,
        suspect_symbols,
        suspect_images,
        diagnosis,
    }
}


// ---------------------------------------------------------------- laws

/// A crash in a global initializer with Steam's loader or its overlay in the path is
/// blamed on Steam's loader or overlay (the overlay dylib counts like the loader),
/// unless the ARC-lite initializer is among the suspects; the ARC-lite initializer
/// is blamed whenever it is.
pub proof fn lemma_steam_loader_diagnosis(exception: Option<Seq<char>>, symbols: Seq<Seq<char>>, images: Seq<Seq<char>>)
    ensures
        symbols.contains("CGlobalInitter::CGlobalInitter()"@) && !symbols.contains("__ARCLite__load()"@)
            && (images.contains("steamloader.dylib"@) || images.contains("gameoverlayrenderer.dylib"@))
            ==> diagnosis_of(exception, symbols, images) == Some("Steam loader/overlay is present in the crash path"@),
        symbols.contains("__ARCLite__load()"@) ==> diagnosis_of(exception, symbols, images)
            == Some("native macOS Isaac is crashing in the legacy ARC-lite initializer under Rosetta"@),
{
    if symbols.contains("__ARCLite__load()"@) {
        let i = choose|i: int| 0 <= i < symbols.len() && symbols[i] == "__ARCLite__load()"@;
        assert(holds_item(symbols, "__ARCLite__load()"@));
    }
    if symbols.contains("CGlobalInitter::CGlobalInitter()"@) {
        let i = choose|i: int| 0 <= i < symbols.len() && symbols[i] == "CGlobalInitter::CGlobalInitter()"@;
        assert(holds_item(symbols, "CGlobalInitter::CGlobalInitter()"@));
    }
    if images.contains("steamloader.dylib"@) {
        let i = choose|i: int| 0 <= i < images.len() && images[i] == "steamloader.dylib"@;
        assert(holds_item(images, "steamloader.dylib"@));
    }
    if images.contains("gameoverlayrenderer.dylib"@) {
        let i = choose|i: int| 0 <= i < images.len() && images[i] == "gameoverlayrenderer.dylib"@;
        assert(holds_item(images, "gameoverlayrenderer.dylib"@));
    }
}


/// An illegal instruction (an exception line naming `EXC_BAD_INSTRUCTION` or
/// `SIGILL`) is diagnosed as one under Rosetta when no suspect symbol explains the
/// crash; a crash with no suspect and no such exception gets no diagnosis.
pub proof fn lemma_illegal_instruction_diagnosis(exception: Option<Seq<char>>, symbols: Seq<Seq<char>>, images: Seq<Seq<char>>)
    requires
        !symbols.contains("__ARCLite__load()"@),
        !symbols.contains("CGlobalInitter::CGlobalInitter()"@),
    ensures
        exception matches Some(e) && (contains(e, "EXC_BAD_INSTRUCTION"@) || contains(e, "SIGILL"@))
            ==> diagnosis_of(exception, symbols, images) == Some("native x86_64 process hit an illegal instruction under Rosetta"@),
        !(exception matches Some(e) && (contains(e, "EXC_BAD_INSTRUCTION"@) || contains(e, "SIGILL"@)))
            ==> diagnosis_of(exception, symbols, images) is None,
{
    if holds_item(symbols, "__ARCLite__load()"@) {
        let i = choose|i: int| 0 <= i < symbols.len() && symbols[i] == "__ARCLite__load()"@;
        assert(symbols.contains("__ARCLite__load()"@));
    }
    if holds_item(symbols, "CGlobalInitter::CGlobalInitter()"@) {
        let i = choose|i: int| 0 <= i < symbols.len() && symbols[i] == "CGlobalInitter::CGlobalInitter()"@;
        assert(symbols.contains("CGlobalInitter::CGlobalInitter()"@));
    }
}

} // verus!
