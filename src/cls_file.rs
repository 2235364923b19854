//! Builds the text document that carries the log: a heading of
//! `Name: value` lines, then sections, each closed by a separator line
//! unique to the document.
use vstd::prelude::*;

verus! {

/// The first line of every document.
pub const FORMAT_LINE: &'static str = "ConsoleLogSaverData/1.0\n";

/// What surrounds the random part of a separator on both sides.
pub const SEPARATOR_FENCE: &'static str = "================";

pub open spec fn is_digit(c: char) -> bool {
    '0' <= c && c <= '9'
}

pub open spec fn is_letter(c: char) -> bool {
    ('A' <= c && c <= 'Z') || ('a' <= c && c <= 'z')
}

/// The characters that a header name may hold.
pub open spec fn is_name_char(c: char) -> bool {
    is_digit(c) || is_letter(c) || c == '!' || c == '#' || c == '$' || c == '%' || c == '&'
        || c == '\'' || c == '*' || c == '+' || c == '-' || c == '.' || c == '^' || c == '_'
        || c == '`' || c == '|' || c == '~'
}

pub open spec fn valid_header_name(name: Seq<char>) -> bool {
    name.len() > 0 && forall|i: int| 0 <= i < name.len() ==> is_name_char(#[trigger] name[i])
}

pub open spec fn valid_header_value(value: Seq<char>) -> bool {
    forall|i: int| 0 <= i < value.len() ==> #[trigger] value[i] != '\r' && value[i] != '\n'
}

pub open spec fn ascii_lower(c: char) -> char {
    if 'A' <= c && c <= 'Z' {
        ((c as u8) + 32) as char
    } else {
        c
    }
}

/// `a` and `b` are equal when ASCII letters are compared without case.
pub open spec fn same_ignoring_ascii_case(a: Seq<char>, b: Seq<char>) -> bool {
    a.len() == b.len() && forall|i: int| 0 <= i < a.len() ==> #[trigger] ascii_lower(a[i]) == ascii_lower(b[i])
}

/// The line that a header adds.
pub open spec fn header_line(name: Seq<char>, value: Seq<char>) -> Seq<char> {
    name + ": "@ + value + "\n"@
}

/// Relies on `uuid::Uuid::new_v4` and the `simple` format of the result:
/// 32 lower-case hexadecimal digits of a random identifier.
#[verifier::external_body]
fn random_identifier() -> (r: String)
    ensures
        r@.len() == 32,
        forall|i: int| 0 <= i < 32 ==> is_digit(#[trigger] r@[i]) || ('a' <= r@[i] && r@[i] <= 'f'),
{
    uuid::Uuid::new_v4().simple().to_string()
}

fn lower_ascii(c: char) -> (r: char)
    ensures
        r == ascii_lower(c),
{
    if 'A' <= c && c <= 'Z' {
        ((c as u8) + 32) as char
    } else {
        c
    }
}

/// Whether `a` and `b` are equal when ASCII letters are compared without case.
pub fn eq_ignore_ascii_case(a: &str, b: &str) -> (r: bool)
    ensures
        r == same_ignoring_ascii_case(a@, b@),
{
    let n = a.unicode_len();
    if n != b.unicode_len() {
        return false;
    }
    let mut i: usize = 0;
    while i < n
        invariant
            n == a@.len(),
            n == b@.len(),
            i <= n,
            forall|k: int| 0 <= k < i ==> #[trigger] ascii_lower(a@[k]) == ascii_lower(b@[k]),
        decreases n - i,
    {
        if lower_ascii(a.get_char(i)) != lower_ascii(b.get_char(i)) {
            return false;
        }
        i = i + 1;
    }
    true
}

fn is_header_name_char(c: char) -> (r: bool)
    ensures
        r == is_name_char(c),
{
    ('0' <= c && c <= '9') || ('A' <= c && c <= 'Z') || ('a' <= c && c <= 'z') || c == '!' || c
        == '#' || c == '$' || c == '%' || c == '&' || c == '\'' || c == '*' || c == '+' || c
        == '-' || c == '.' || c == '^' || c == '_' || c == '`' || c == '|' || c == '~'
}

/// Whether `name` may name a header: not empty, and only letters, digits
/// and ``!#$%&'*+-.^_`|~``.
pub fn check_header_name(name: &str) -> (r: bool)
    ensures
        r == valid_header_name(name@),
{
    let n = name.unicode_len();
    if n == 0 {
        return false;
    }
    let mut i: usize = 0;
    while i < n
        invariant
            n == name@.len(),
            i <= n,
            forall|k: int| 0 <= k < i ==> is_name_char(#[trigger] name@[k]),
        decreases n - i,
    {
        if !is_header_name_char(name.get_char(i)) {
            return false;
        }
        i = i + 1;
    }
    true
}

/// Whether `value` may stand on a header line: no line break in it.
pub fn check_header_value(value: &str) -> (r: bool)
    ensures
        r == valid_header_value(value@),
{
    let n = value.unicode_len();
    let mut i: usize = 0;
    while i < n
        invariant
            n == value@.len(),
            i <= n,
            forall|k: int| 0 <= k < i ==> #[trigger] value@[k] != '\r' && value@[k] != '\n',
        decreases n - i,
    {
        let c = value.get_char(i);
        if c == '\r' || c == '\n' {
            return false;
        }
        i = i + 1;
    }
    true
}

/// The document so far and its separator line.
pub struct ClsFileBuilder {
    building: String,
    separator: String,
}

impl ClsFileBuilder {
    pub closed spec fn text(&self) -> Seq<char> {
        self.building@
    }

    pub closed spec fn separator_line(&self) -> Seq<char> {
        self.separator@
    }

    /// A document with a fresh random separator, at the start of its heading.
    pub fn new() -> (r: ClsHeadingBuilder)
        ensures
            exists|id: Seq<char>|
                id.len() == 32 && r.separator() == SEPARATOR_FENCE@ + id + SEPARATOR_FENCE@
                    && r.text() == FORMAT_LINE@ + "Separator: "@ + r.separator() + "\n"@,
    {
        let id = random_identifier();
        Self::with_separator_id(id.as_str())
    }

    /// A document whose separator holds `id`, at the start of its heading.
    pub fn with_separator_id(id: &str) -> (r: ClsHeadingBuilder)
        ensures
            r.separator() == SEPARATOR_FENCE@ + id@ + SEPARATOR_FENCE@,
            r.text() == FORMAT_LINE@ + "Separator: "@ + r.separator() + "\n"@,
    {
        let mut separator = String::from_str(SEPARATOR_FENCE);
        separator.append(id);
        separator.append(SEPARATOR_FENCE);
        let mut building = String::from_str(FORMAT_LINE);
        building.append("Separator: ");
        building.append(separator.as_str());
        building.append("\n");
        ClsHeadingBuilder { builder: ClsFileBuilder { building, separator } }
    }

    fn add_header(&mut self, name: &str, value: &str)
        requires
            valid_header_name(name@),
            !same_ignoring_ascii_case(name@, "separator"@),
        ensures
            final(self).text() == old(self).text() + header_line(name@, value@),
            final(self).separator_line() == old(self).separator_line(),
    {
        self.building.append(name);
        self.building.append(": ");
        self.building.append(value);
        self.building.append("\n");
        assert(self.building@ =~= old(self).building@ + header_line(name@, value@));
    }

    fn end_of_heading(&mut self)
        ensures
            final(self).text() == old(self).text() + "\n"@,
            final(self).separator_line() == old(self).separator_line(),
    {
        self.building.append("\n");
    }

    fn end_of_section(&mut self)
        ensures
            final(self).text() == old(self).text() + old(self).separator_line() + "\n"@,
            final(self).separator_line() == old(self).separator_line(),
    {
        self.building.append(self.separator.as_str());
        self.building.append("\n");
        assert(self.building@ =~= old(self).building@ + old(self).separator@ + "\n"@);
    }
}

/// A document while its heading is written.
pub struct ClsHeadingBuilder {
    builder: ClsFileBuilder,
}

impl ClsHeadingBuilder {
    pub closed spec fn text(&self) -> Seq<char> {
        self.builder.text()
    }

    pub closed spec fn separator(&self) -> Seq<char> {
        self.builder.separator_line()
    }

    /// Adds the line `name: value` to the heading.
    pub fn add_header(self, name: &str, value: &str) -> (r: ClsHeadingBuilder)
        requires
            valid_header_name(name@),
            !same_ignoring_ascii_case(name@, "separator"@),
        ensures
            r.text() == self.text() + header_line(name@, value@),
            r.separator() == self.separator(),
    {
        let mut this = self;
        this.builder.add_header(name, value);
        this
    }

    /// Ends the heading with an empty line and the separator, and starts
    /// the body.
    pub fn begin_body(self) -> (r: ClsBodyBuilder)
        ensures
            r.text() == self.text() + "\n"@ + self.separator() + "\n"@,
            r.separator() == self.separator(),
            !r.open_section(),
    {
        let mut builder = self.builder;
        builder.end_of_heading();
        builder.end_of_section();
        ClsBodyBuilder { builder, has_content: false }
    }
}

/// A document while its body is written: sections, each of headers and
/// then a content.
pub struct ClsBodyBuilder {
    builder: ClsFileBuilder,
    has_content: bool,
}

impl ClsBodyBuilder {
    pub closed spec fn text(&self) -> Seq<char> {
        self.builder.text()
    }

    pub closed spec fn separator(&self) -> Seq<char> {
        self.builder.separator_line()
    }

    /// A section has headers that no content has closed yet.
    pub closed spec fn open_section(&self) -> bool {
        self.has_content
    }

    /// Adds the line `name: value` to the current section.
    pub fn add_header(self, name: &str, value: &str) -> (r: ClsBodyBuilder)
        requires
            valid_header_name(name@),
            !same_ignoring_ascii_case(name@, "separator"@),
            !same_ignoring_ascii_case(name@, "content"@),
        ensures
            r.text() == self.text() + header_line(name@, value@),
            r.separator() == self.separator(),
            r.open_section(),
    {
        let mut this = self;
        this.has_content = true;
        this.builder.add_header(name, value);
        this
    }

    /// Closes the current section with a `Content` header naming
    /// `content_type`, an empty line, the content and the separator.
    pub fn add_content(self, content_type: &str, content: &str) -> (r: ClsBodyBuilder)
        ensures
            r.text() == self.text() + header_line("Content"@, content_type@) + "\n"@ + content@
                + self.separator() + "\n"@,
            r.separator() == self.separator(),
            !r.open_section(),
    {
        proof {
            reveal_strlit("Content");
            reveal_strlit("separator");
            assert(valid_header_name("Content"@)) by {
                assert forall|i: int| 0 <= i < "Content"@.len() implies is_name_char(
                    #[trigger] "Content"@[i],
                ) by {}
            }
            assert(!same_ignoring_ascii_case("Content"@, "separator"@));
        }
        let mut this = self;
        this.builder.add_header("Content", content_type);
        this.builder.end_of_heading();
        this.builder.building.append(content);
        this.builder.end_of_section();
        this.has_content = false;
        this
    }

    /// The finished document; a section that has headers but no content is
    /// closed first.
    pub fn build(self) -> (r: String)
        ensures
            r@ == if self.open_section() {
                self.text() + "\n"@ + self.separator() + "\n"@
            } else {
                self.text()
            },
    {
        let mut builder = self.builder;
        if self.has_content {
            builder.end_of_heading();
            builder.end_of_section();
        }
        builder.building
    }
}

} // verus!
