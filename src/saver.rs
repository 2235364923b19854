//! From the transfer buffer to the saved document.
use crate::cls_file::{
    header_line, is_name_char, same_ignoring_ascii_case, valid_header_name, ClsFileBuilder,
    ClsBodyBuilder, ClsHeadingBuilder, FORMAT_LINE, SEPARATOR_FENCE,
};
use crate::packages::{upm_dependency_value, upm_value, vpm_dependency_value, LockedPackage};
use crate::process_remote::{corrupt, ProcessRemoteError};
use crate::redact::{apply_rules, ReplaceSet};
use crate::text::{
    decode_utf16, hex8, hex8_string, lemma_utf16_injective, signed_decimal, signed_decimal_string,
    utf16_of,
};
use crate::transfer::{
    body_bytes, decode_transfer, lemma_round_trip, parse_transfer, transfer_bytes, Corruption,
    TransferData, TransferModel,
};
use crate::wire::ByteOrder;
use crate::ConsoleLogSaverConfig;
use vstd::prelude::*;

verus! {

/// The `Vendor` header of every document this library writes.
pub const VENDOR: &'static str = "ConsoleLogSaver/0.1.0 (CLS-LLDB-RS)";

/// One log record, as text.
pub struct LogEntry {
    pub message: String,
    pub mode: i32,
}

/// The payload's report, as text.
pub struct DecodedLog {
    pub unity_version: String,
    pub os_description: String,
    pub build_target: String,
    pub current_directory: String,
    pub entries: Vec<LogEntry>,
}

pub open spec fn decodable(units: Seq<u16>) -> bool {
    exists|cs: Seq<char>| utf16_of(cs) == units
}

/// Every string of the report is valid UTF-16.
pub open spec fn all_decodable(m: TransferModel) -> bool {
    &&& decodable(m.unity_version)
    &&& decodable(m.os_description)
    &&& decodable(m.build_target)
    &&& decodable(m.current_directory)
    &&& forall|i: int| 0 <= i < m.entries.len() ==> decodable(#[trigger] m.entries[i].0)
}

/// `log` is the text that `m` encodes.
pub open spec fn decodes(log: DecodedLog, m: TransferModel) -> bool {
    &&& utf16_of(log.unity_version@) == m.unity_version
    &&& utf16_of(log.os_description@) == m.os_description
    &&& utf16_of(log.build_target@) == m.build_target
    &&& utf16_of(log.current_directory@) == m.current_directory
    &&& log.entries@.len() == m.entries.len()
    &&& forall|i: int|
        0 <= i < m.entries.len() ==> utf16_of(#[trigger] log.entries@[i].message@) == m.entries[i].0
            && log.entries@[i].mode == m.entries[i].1
}

fn decode_text(units: &Vec<u16>) -> (r: Result<String, ProcessRemoteError>)
    ensures
        decodable(units@) ==> (r matches Ok(s) && utf16_of(s@) == units@),
        !decodable(units@) ==> r matches Err(ProcessRemoteError::NonUtf8LogContents),
{
    match decode_utf16(units.as_slice()) {
        Some(s) => Ok(s),
        None => Err(ProcessRemoteError::NonUtf8LogContents),
    }
}

/// The report as text; an error when a string is not valid UTF-16.
pub fn decode_log(data: &TransferData) -> (r: Result<DecodedLog, ProcessRemoteError>)
    ensures
        all_decodable(data@) ==> r is Ok && decodes(r->Ok_0, data@),
        !all_decodable(data@) ==> r matches Err(ProcessRemoteError::NonUtf8LogContents),
{
    let unity_version = match decode_text(&data.unity_version) {
        Ok(s) => s,
        Err(e) => return Err(e),
    };
    let os_description = match decode_text(&data.os_description) {
        Ok(s) => s,
        Err(e) => return Err(e),
    };
    let build_target = match decode_text(&data.build_target) {
        Ok(s) => s,
        Err(e) => return Err(e),
    };
    let current_directory = match decode_text(&data.current_directory) {
        Ok(s) => s,
        Err(e) => return Err(e),
    };
    let ghost m = data@;
    let mut entries: Vec<LogEntry> = Vec::new();
    let mut i: usize = 0;
    while i < data.entries.len()
        invariant
            m == data@,
            i <= m.entries.len(),
            entries@.len() == i,
            forall|k: int| 0 <= k < m.entries.len() ==> (#[trigger] m.entries[k]) == data.entries@[k]@,
            forall|k: int|
                0 <= k < i ==> utf16_of(#[trigger] entries@[k].message@) == m.entries[k].0
                    && entries@[k].mode == m.entries[k].1,
        decreases m.entries.len() - i,
    {
        let record = &data.entries[i];
        let message = match decode_text(&record.message) {
            Ok(s) => s,
            Err(e) => {
                assert(!decodable(m.entries[i as int].0));
                return Err(e);
            },
        };
        entries.push(LogEntry { message, mode: record.mode });
        i = i + 1;
    }
    assert forall|k: int| 0 <= k < m.entries.len() implies decodable(#[trigger] m.entries[k].0) by {
        assert(utf16_of(entries@[k].message@) == m.entries[k].0);
    }
    assert(utf16_of(unity_version@) == m.unity_version);
    assert(utf16_of(os_description@) == m.os_description);
    assert(utf16_of(build_target@) == m.build_target);
    assert(utf16_of(current_directory@) == m.current_directory);
    Ok(DecodedLog { unity_version, os_description, build_target, current_directory, entries })
}

// ----- the document -----

pub open spec fn upm_lines(ps: Seq<LockedPackage>, replacer: ReplaceSet) -> Seq<(Seq<char>, Seq<char>)>
    decreases ps.len(),
{
    if ps.len() == 0 {
        Seq::empty()
    } else {
        upm_lines(ps.drop_last(), replacer) + match ps.last().version {
            Some(v) => seq![("Upm-Dependency"@, upm_value(ps.last().name@, v@, replacer))],
            None => Seq::empty(),
        }
    }
}

pub open spec fn vpm_lines(ps: Seq<LockedPackage>) -> Seq<(Seq<char>, Seq<char>)>
    decreases ps.len(),
{
    if ps.len() == 0 {
        Seq::empty()
    } else {
        vpm_lines(ps.drop_last()) + match ps.last().version {
            Some(v) => seq![("Vpm-Dependency"@, ps.last().name@ + "@"@ + v@)],
            None => Seq::empty(),
        }
    }
}

/// The heading's headers, in order.
pub open spec fn heading(
    log: DecodedLog,
    config: ConsoleLogSaverConfig,
    upm: Seq<LockedPackage>,
    vpm: Seq<LockedPackage>,
    replacer: ReplaceSet,
) -> Seq<(Seq<char>, Seq<char>)> {
    fixed_headers(log, config) + upm_lines(upm, replacer) + vpm_lines(vpm)
}

pub open spec fn push_if(
    hs: Seq<(Seq<char>, Seq<char>)>,
    flag: bool,
    h: (Seq<char>, Seq<char>),
) -> Seq<(Seq<char>, Seq<char>)> {
    if flag {
        hs.push(h)
    } else {
        hs
    }
}

/// The headers before the dependency lines.
pub open spec fn fixed_headers(log: DecodedLog, config: ConsoleLogSaverConfig) -> Seq<
    (Seq<char>, Seq<char>),
> {
    let h0 = Seq::empty().push(("Vendor"@, VENDOR@)).push(("Unity-Version"@, log.unity_version@));
    let h1 = push_if(h0, !config.hide_os_info, ("Editor-Platform"@, log.os_description@));
    let h2 = push_if(h1, config.hide_user_name, ("Hidden-Data"@, "user-name"@));
    let h3 = push_if(h2, config.hide_user_home, ("Hidden-Data"@, "user-home"@));
    let h4 = h3.push(("Hidden-Data"@, "aws-access-key-id-param"@)).push(
        ("Hidden-Data"@, "asset-url"@),
    );
    let h5 = push_if(h4, config.hide_aws_upload_signature, ("Hidden-Data"@, "signature-param"@));
    h5.push(("Build-Target"@, log.build_target@))
}

#[verifier::opaque]
pub open spec fn headers_text(hs: Seq<(Seq<char>, Seq<char>)>) -> Seq<char>
    decreases hs.len(),
{
    if hs.len() == 0 {
        Seq::empty()
    } else {
        headers_text(hs.drop_last()) + header_line(hs.last().0, hs.last().1)
    }
}

/// The section of one record: its mode in decimal and in hexadecimal,
/// then the redacted message.
pub open spec fn entry_text(e: LogEntry, separator: Seq<char>, replacer: ReplaceSet) -> Seq<char> {
    header_line("Mode"@, signed_decimal(e.mode)) + header_line(
        "Mode-Raw"@,
        hex8(#[verifier::truncate] (e.mode as u32)),
    ) + header_line("Content"@, "log-element"@) + "\n"@ + apply_rules(replacer.rules(), e.message@)
        + separator + "\n"@
}

pub open spec fn entries_text(es: Seq<LogEntry>, separator: Seq<char>, replacer: ReplaceSet) -> Seq<
    char,
>
    decreases es.len(),
{
    if es.len() == 0 {
        Seq::empty()
    } else {
        entries_text(es.drop_last(), separator, replacer) + entry_text(es.last(), separator, replacer)
    }
}

/// The whole document for `log`, with the separator line `separator`.
pub open spec fn document(
    log: DecodedLog,
    config: ConsoleLogSaverConfig,
    upm: Seq<LockedPackage>,
    vpm: Seq<LockedPackage>,
    replacer: ReplaceSet,
    separator: Seq<char>,
) -> Seq<char> {
    FORMAT_LINE@ + "Separator: "@ + separator + "\n"@ + headers_text(
        heading(log, config, upm, vpm, replacer),
    ) + "\n"@ + separator + "\n"@ + entries_text(log.entries@, separator, replacer)
}

pub open spec fn usable_name(name: Seq<char>) -> bool {
    valid_header_name(name) && !same_ignoring_ascii_case(name, "separator"@)
        && !same_ignoring_ascii_case(name, "content"@)
}

proof fn lemma_names()
    ensures
        usable_name("Vendor"@),
        usable_name("Unity-Version"@),
        usable_name("Editor-Platform"@),
        usable_name("Hidden-Data"@),
        usable_name("Build-Target"@),
        usable_name("Upm-Dependency"@),
        usable_name("Vpm-Dependency"@),
        usable_name("Mode"@),
        usable_name("Mode-Raw"@),
{
    reveal_strlit("separator");
    reveal_strlit("content");
    reveal_strlit("Vendor");
    reveal_strlit("Unity-Version");
    reveal_strlit("Editor-Platform");
    reveal_strlit("Hidden-Data");
    reveal_strlit("Build-Target");
    reveal_strlit("Upm-Dependency");
    reveal_strlit("Vpm-Dependency");
    reveal_strlit("Mode");
    reveal_strlit("Mode-Raw");
    assert(forall|i: int| 0 <= i < "Vendor"@.len() ==> is_name_char(#[trigger] "Vendor"@[i]));
    assert(forall|i: int|
        0 <= i < "Unity-Version"@.len() ==> is_name_char(#[trigger] "Unity-Version"@[i]));
    assert(forall|i: int|
        0 <= i < "Editor-Platform"@.len() ==> is_name_char(#[trigger] "Editor-Platform"@[i]));
    assert(forall|i: int|
        0 <= i < "Hidden-Data"@.len() ==> is_name_char(#[trigger] "Hidden-Data"@[i]));
    assert(forall|i: int|
        0 <= i < "Build-Target"@.len() ==> is_name_char(#[trigger] "Build-Target"@[i]));
    assert(forall|i: int|
        0 <= i < "Upm-Dependency"@.len() ==> is_name_char(#[trigger] "Upm-Dependency"@[i]));
    assert(forall|i: int|
        0 <= i < "Vpm-Dependency"@.len() ==> is_name_char(#[trigger] "Vpm-Dependency"@[i]));
    assert(forall|i: int| 0 <= i < "Mode"@.len() ==> is_name_char(#[trigger] "Mode"@[i]));
    assert(forall|i: int| 0 <= i < "Mode-Raw"@.len() ==> is_name_char(#[trigger] "Mode-Raw"@[i]));
}

proof fn lemma_headers_push(hs: Seq<(Seq<char>, Seq<char>)>, name: Seq<char>, value: Seq<char>)
    ensures
        headers_text(hs.push((name, value))) == headers_text(hs) + header_line(name, value),
{
    reveal(headers_text);
    assert(hs.push((name, value)).drop_last() =~= hs);
}

proof fn lemma_headers_concat(a: Seq<(Seq<char>, Seq<char>)>, b: Seq<(Seq<char>, Seq<char>)>)
    ensures
        headers_text(a + b) == headers_text(a) + headers_text(b),
    decreases b.len(),
{
    reveal(headers_text);
    if b.len() == 0 {
        assert(a + b =~= a);
        assert(headers_text(a) + headers_text(b) =~= headers_text(a));
    } else {
        assert((a + b).drop_last() =~= a + b.drop_last());
        lemma_headers_concat(a, b.drop_last());
        assert(headers_text(a + b) =~= headers_text(a) + headers_text(b));
    }
}

#[verifier::rlimit(60)]
fn write_fixed_headers(h: ClsHeadingBuilder, log: &DecodedLog, config: &ConsoleLogSaverConfig) -> (r:
    ClsHeadingBuilder)
    ensures
        r.text() == h.text() + headers_text(fixed_headers(*log, *config)),
        r.separator() == h.separator(),
{
    proof {
        lemma_names();
    }
    let ghost t0 = h.text();
    let ghost mut hs: Seq<(Seq<char>, Seq<char>)> = Seq::empty();
    assert(t0 + headers_text(hs) =~= t0) by {
        reveal(headers_text);
    }
    let mut h = h.add_header("Vendor", VENDOR);
    proof {
        lemma_headers_push(hs, "Vendor"@, VENDOR@);
        hs = hs.push(("Vendor"@, VENDOR@));
    }
    h = h.add_header("Unity-Version", log.unity_version.as_str());
    proof {
        lemma_headers_push(hs, "Unity-Version"@, log.unity_version@);
        hs = hs.push(("Unity-Version"@, log.unity_version@));
    }
    if !config.hide_os_info {
        h = h.add_header("Editor-Platform", log.os_description.as_str());
        proof {
            lemma_headers_push(hs, "Editor-Platform"@, log.os_description@);
            hs = hs.push(("Editor-Platform"@, log.os_description@));
        }
    }
    assert(h.text() == t0 + headers_text(hs));
    if config.hide_user_name {
        h = h.add_header("Hidden-Data", "user-name");
        proof {
            lemma_headers_push(hs, "Hidden-Data"@, "user-name"@);
            hs = hs.push(("Hidden-Data"@, "user-name"@));
        }
    }
    assert(h.text() == t0 + headers_text(hs));
    if config.hide_user_home {
        h = h.add_header("Hidden-Data", "user-home");
        proof {
            lemma_headers_push(hs, "Hidden-Data"@, "user-home"@);
            hs = hs.push(("Hidden-Data"@, "user-home"@));
        }
    }
    assert(h.text() == t0 + headers_text(hs));
    h = h.add_header("Hidden-Data", "aws-access-key-id-param");
    proof {
        lemma_headers_push(hs, "Hidden-Data"@, "aws-access-key-id-param"@);
        hs = hs.push(("Hidden-Data"@, "aws-access-key-id-param"@));
    }
    h = h.add_header("Hidden-Data", "asset-url");
    proof {
        lemma_headers_push(hs, "Hidden-Data"@, "asset-url"@);
        hs = hs.push(("Hidden-Data"@, "asset-url"@));
    }
    if config.hide_aws_upload_signature {
        h = h.add_header("Hidden-Data", "signature-param");
        proof {
            lemma_headers_push(hs, "Hidden-Data"@, "signature-param"@);
            hs = hs.push(("Hidden-Data"@, "signature-param"@));
        }
    }
    assert(h.text() == t0 + headers_text(hs));
    h = h.add_header("Build-Target", log.build_target.as_str());
    proof {
        lemma_headers_push(hs, "Build-Target"@, log.build_target@);
        hs = hs.push(("Build-Target"@, log.build_target@));
    }
    h
}

fn write_upm_headers(h: ClsHeadingBuilder, upm: &Vec<LockedPackage>, replacer: &ReplaceSet) -> (r:
    ClsHeadingBuilder)
    ensures
        r.text() == h.text() + headers_text(upm_lines(upm@, *replacer)),
        r.separator() == h.separator(),
{
    proof {
        lemma_names();
    }
    let ghost t0 = h.text();
    let ghost sep = h.separator();
    let mut h = h;
    assert(upm@.take(0) =~= Seq::<LockedPackage>::empty());
    assert(t0 + headers_text(upm_lines(upm@.take(0), *replacer)) =~= t0) by {
        reveal(headers_text);
    }
    let mut i: usize = 0;
    while i < upm.len()
        invariant
            i <= upm@.len(),
            usable_name("Upm-Dependency"@),
            h.text() == t0 + headers_text(upm_lines(upm@.take(i as int), *replacer)),
            h.separator() == sep,
        decreases upm@.len() - i,
    {
        let p = &upm[i];
        let ghost hs = upm_lines(upm@.take(i as int), *replacer);
        assert(upm@.take(i as int + 1).drop_last() =~= upm@.take(i as int));
        assert(upm@.take(i as int + 1).last() == upm@[i as int]);
        match &p.version {
            Some(v) => {
                let value = upm_dependency_value(p.name.as_str(), v.as_str(), replacer);
                h = h.add_header("Upm-Dependency", value.as_str());
                proof {
                    lemma_headers_push(hs, "Upm-Dependency"@, value@);
                    assert(hs.push(("Upm-Dependency"@, value@)) =~= upm_lines(upm@.take(i as int + 1), *replacer));
                }
            },
            None => {
                assert(hs =~= upm_lines(upm@.take(i as int + 1), *replacer));
            },
        }
        i = i + 1;
    }
    assert(upm@.take(upm@.len() as int) =~= upm@);
    h
}
fn write_vpm_headers(h: ClsHeadingBuilder, vpm: &Vec<LockedPackage>) -> (r: ClsHeadingBuilder)
    ensures
        r.text() == h.text() + headers_text(vpm_lines(vpm@)),
        r.separator() == h.separator(),
{
    proof {
        lemma_names();
    }
    let ghost t0 = h.text();
    let ghost sep = h.separator();
    let mut h = h;
    assert(vpm@.take(0) =~= Seq::<LockedPackage>::empty());
    assert(t0 + headers_text(vpm_lines(vpm@.take(0))) =~= t0) by {
        reveal(headers_text);
    }
    let mut i: usize = 0;
    while i < vpm.len()
        invariant
            i <= vpm@.len(),
            usable_name("Vpm-Dependency"@),
            h.text() == t0 + headers_text(vpm_lines(vpm@.take(i as int))),
            h.separator() == sep,
        decreases vpm@.len() - i,
    {
        let p = &vpm[i];
        let ghost hs = vpm_lines(vpm@.take(i as int));
        assert(vpm@.take(i as int + 1).drop_last() =~= vpm@.take(i as int));
        assert(vpm@.take(i as int + 1).last() == vpm@[i as int]);
        match &p.version {
            Some(v) => {
                let value = vpm_dependency_value(p.name.as_str(), v.as_str());
                h = h.add_header("Vpm-Dependency", value.as_str());
                proof {
                    lemma_headers_push(hs, "Vpm-Dependency"@, value@);
                    assert(hs.push(("Vpm-Dependency"@, value@)) =~= vpm_lines(vpm@.take(i as int + 1)));
                }
            },
            None => {
                assert(hs =~= vpm_lines(vpm@.take(i as int + 1)));
            },
        }
        i = i + 1;
    }
    assert(vpm@.take(vpm@.len() as int) =~= vpm@);
    h
}

fn write_entries(b: ClsBodyBuilder, entries: &Vec<LogEntry>, replacer: &ReplaceSet) -> (r:
    ClsBodyBuilder)
    requires
        !b.open_section(),
    ensures
        r.text() == b.text() + entries_text(entries@, b.separator(), *replacer),
        r.separator() == b.separator(),
        !r.open_section(),
{
    proof {
        lemma_names();
    }
    let ghost t0 = b.text();
    let ghost sep = b.separator();
    let mut b = b;
    assert(entries@.take(0) =~= Seq::<LogEntry>::empty());
    assert(t0 + entries_text(entries@.take(0), sep, *replacer) =~= t0);
    let mut k: usize = 0;
    while k < entries.len()
        invariant
            k <= entries@.len(),
            usable_name("Mode"@),
            usable_name("Mode-Raw"@),
            b.text() == t0 + entries_text(entries@.take(k as int), sep, *replacer),
            b.separator() == sep,
            !b.open_section(),
        decreases entries@.len() - k,
    {
        let e = &entries[k];
        let mode = signed_decimal_string(e.mode);
        let raw = hex8_string(#[verifier::truncate] (e.mode as u32));
        let message = replacer.replace_all(e.message.as_str());
        let ghost before = b.text();
        b = b.add_header("Mode", mode.as_str());
        b = b.add_header("Mode-Raw", raw.as_str());
        b = b.add_content("log-element", message.as_str());
        proof {
            let es = entries@.take(k as int + 1);
            assert(es.drop_last() =~= entries@.take(k as int));
            assert(es.last() == entries@[k as int]);
            assert(b.text() =~= before + entry_text(entries@[k as int], sep, *replacer));
        }
        k = k + 1;
    }
    assert(entries@.take(entries@.len() as int) =~= entries@);
    b
}

fn render_into(
    start: ClsHeadingBuilder,
    log: &DecodedLog,
    config: &ConsoleLogSaverConfig,
    replacer: &ReplaceSet,
    upm: &Vec<LockedPackage>,
    vpm: &Vec<LockedPackage>,
) -> (r: String)
    requires
        start.text() == FORMAT_LINE@ + "Separator: "@ + start.separator() + "\n"@,
    ensures
        r@ == document(*log, *config, upm@, vpm@, *replacer, start.separator()),
{
    let ghost sep = start.separator();
    let h = write_fixed_headers(start, log, config);
    let h = write_upm_headers(h, upm, replacer);
    let h = write_vpm_headers(h, vpm);
    proof {
        let f = fixed_headers(*log, *config);
        let u = upm_lines(upm@, *replacer);
        let v = vpm_lines(vpm@);
        lemma_headers_concat(f, u);
        lemma_headers_concat(f + u, v);
    }
    let b = h.begin_body();
    let b = write_entries(b, &log.entries, replacer);
    let r = b.build();
    assert(r@ =~= document(*log, *config, upm@, vpm@, *replacer, sep));
    r
}

/// The document for `log`, whose separator holds `separator_id`.
pub fn render_log_document(
    log: &DecodedLog,
    config: &ConsoleLogSaverConfig,
    replacer: &ReplaceSet,
    upm: &Vec<LockedPackage>,
    vpm: &Vec<LockedPackage>,
    separator_id: &str,
) -> (r: String)
    ensures
        r@ == document(
            *log,
            *config,
            upm@,
            vpm@,
            *replacer,
            SEPARATOR_FENCE@ + separator_id@ + SEPARATOR_FENCE@,
        ),
{
    let start = ClsFileBuilder::with_separator_id(separator_id);
    render_into(start, log, config, replacer, upm, vpm)
}

/// Decodes the buffer read from the target (from its `byte_length` field
/// on, in the target's byte order) and writes the document, with a fresh
/// random separator.
pub fn run_console_log_saver(
    buffer: Vec<u8>,
    order: ByteOrder,
    config: &ConsoleLogSaverConfig,
    replacer: &ReplaceSet,
    upm: &Vec<LockedPackage>,
    vpm: &Vec<LockedPackage>,
) -> (r: Result<String, ProcessRemoteError>)
    ensures
        match parse_transfer(buffer@, order) {
            Err(c) => r == Err::<String, _>(ProcessRemoteError::CorruptData { corruption: c }),
            Ok(m) => if all_decodable(m) {
                r matches Ok(text) && exists|log: DecodedLog, id: Seq<char>|
                    decodes(log, m) && id.len() == 32 && text@ == document(
                        log,
                        *config,
                        upm@,
                        vpm@,
                        *replacer,
                        SEPARATOR_FENCE@ + id + SEPARATOR_FENCE@,
                    )
            } else {
                r matches Err(ProcessRemoteError::NonUtf8LogContents)
            },
        },
{
    let data = match decode_transfer(buffer, order) {
        Ok(d) => d,
        Err(c) => return Err(corrupt(c)),
    };
    let log = match decode_log(&data) {
        Ok(l) => l,
        Err(e) => return Err(e),
    };
    let start = ClsFileBuilder::new();
    let text = render_into(start, &log, config, replacer, upm, vpm);
    Ok(text)
}

/// The report whose strings are the UTF-16 encodings of the given texts.
pub open spec fn text_model(
    unity_version: Seq<char>,
    os_description: Seq<char>,
    build_target: Seq<char>,
    current_directory: Seq<char>,
    records: Seq<(Seq<char>, i32)>,
) -> TransferModel {
    TransferModel {
        unity_version: utf16_of(unity_version),
        os_description: utf16_of(os_description),
        build_target: utf16_of(build_target),
        current_directory: utf16_of(current_directory),
        entries: records.map_values(|r: (Seq<char>, i32)| (utf16_of(r.0), r.1)),
    }
}

/// Texts and modes that are encoded into a transfer buffer come back
/// unchanged: the buffer decodes to their report, every string of it is
/// valid UTF-16, and any text that the report decodes to is the encoded one,
/// empty strings and an empty log included.
pub proof fn lemma_text_round_trip(
    unity_version: Seq<char>,
    os_description: Seq<char>,
    build_target: Seq<char>,
    current_directory: Seq<char>,
    records: Seq<(Seq<char>, i32)>,
    order: ByteOrder,
    log: DecodedLog,
)
    requires
        text_model(unity_version, os_description, build_target, current_directory, records).well_formed(),
        body_bytes(
            text_model(unity_version, os_description, build_target, current_directory, records),
            order,
        ).len() <= u64::MAX,
        decodes(log, text_model(unity_version, os_description, build_target, current_directory, records)),
    ensures
        ({
            let m = text_model(unity_version, os_description, build_target, current_directory, records);
            &&& parse_transfer(transfer_bytes(m, order), order) == Ok::<_, Corruption>(m)
            &&& all_decodable(m)
            &&& log.unity_version@ == unity_version
            &&& log.os_description@ == os_description
            &&& log.build_target@ == build_target
            &&& log.current_directory@ == current_directory
            &&& log.entries@.len() == records.len()
            &&& forall|i: int|
                0 <= i < records.len() ==> (#[trigger] log.entries@[i]).message@ == records[i].0
                    && log.entries@[i].mode == records[i].1
        }),
{
    let m = text_model(unity_version, os_description, build_target, current_directory, records);
    lemma_round_trip(m, order);
    lemma_utf16_injective(log.unity_version@, unity_version);
    lemma_utf16_injective(log.os_description@, os_description);
    lemma_utf16_injective(log.build_target@, build_target);
    lemma_utf16_injective(log.current_directory@, current_directory);
    assert forall|i: int| 0 <= i < records.len() implies (#[trigger] log.entries@[i]).message@
        == records[i].0 && log.entries@[i].mode == records[i].1 by {
        assert(m.entries[i] == (utf16_of(records[i].0), records[i].1));
        lemma_utf16_injective(log.entries@[i].message@, records[i].0);
    }
    assert forall|i: int| 0 <= i < m.entries.len() implies decodable(#[trigger] m.entries[i].0) by {
        assert(utf16_of(records[i].0) == m.entries[i].0);
    }
    assert(utf16_of(unity_version) == m.unity_version);
    assert(utf16_of(os_description) == m.os_description);
    assert(utf16_of(build_target) == m.build_target);
    assert(utf16_of(current_directory) == m.current_directory);
}

} // verus!
