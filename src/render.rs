//! What the renderers show: the markdown form of an entry, category paths,
//! table rows and the ordering of tags.
use vstd::prelude::*;

use crate::config::opt_text;
use crate::error::CliError;
use crate::models::{Author, Category, Entry, Tag, TagAndCount, Timestamp};
use crate::text::{decimal, decimal_text, join, join_text};

verus! {

/// The RFC 3339 text of an instant in UTC.
pub uninterp spec fn rfc3339_text(secs: i64, nanos: u32) -> Seq<char>;

/// Relies on chrono: `DateTime::<Utc>::from_timestamp` names the instant
/// (it does for every value a `Timestamp` holds) and `to_rfc3339` renders
/// it, as a function of the instant alone.
#[verifier::external_body]
fn rfc3339(t: Timestamp) -> (r: String)
    ensures
        r@ == rfc3339_text(t.spec_secs(), t.spec_nanos()),
{
    chrono::DateTime::from_timestamp(t.secs(), t.nanos()).expect("instant in range").to_rfc3339()
}

/// The names of categories, in order.
pub open spec fn category_names(cats: Seq<Category>) -> Seq<Seq<char>> {
    cats.map_values(|c: Category| c.name@)
}

/// The names of tags, in order.
pub open spec fn tag_names(tags: Seq<Tag>) -> Seq<Seq<char>> {
    tags.map_values(|t: Tag| t.name@)
}

/// Each text between double quotes.
pub open spec fn quoted(parts: Seq<Seq<char>>) -> Seq<Seq<char>> {
    parts.map_values(|p: Seq<char>| "\""@ + p + "\""@)
}

/// The names of categories.
pub fn names_of_categories(cats: &Vec<Category>) -> (r: Vec<String>)
    ensures
        r@.map_values(|p: String| p@) == category_names(cats@),
{
    let mut r: Vec<String> = Vec::new();
    let mut i: usize = 0;
    while i < cats.len()
        invariant
            i <= cats@.len(),
            r@.len() == i,
            forall|j: int| 0 <= j < i ==> r@[j]@ == cats@[j].name@,
        decreases cats.len() - i,
    {
        r.push(cats[i].name.clone());
        i = i + 1;
    }
    assert(r@.map_values(|p: String| p@) =~= category_names(cats@));
    r
}

/// The names of tags.
pub fn names_of_tags(tags: &Vec<Tag>) -> (r: Vec<String>)
    ensures
        r@.map_values(|p: String| p@) == tag_names(tags@),
{
    let mut r: Vec<String> = Vec::new();
    let mut i: usize = 0;
    while i < tags.len()
        invariant
            i <= tags@.len(),
            r@.len() == i,
            forall|j: int| 0 <= j < i ==> r@[j]@ == tags@[j].name@,
        decreases tags.len() - i,
    {
        r.push(tags[i].name.clone());
        i = i + 1;
    }
    assert(r@.map_values(|p: String| p@) =~= tag_names(tags@));
    r
}

fn quote_all(parts: &Vec<String>) -> (r: Vec<String>)
    ensures
        r@.map_values(|p: String| p@) == quoted(parts@.map_values(|p: String| p@)),
{
    let ghost views = parts@.map_values(|p: String| p@);
    let mut r: Vec<String> = Vec::new();
    let mut i: usize = 0;
    while i < parts.len()
        invariant
            i <= parts@.len(),
            views == parts@.map_values(|p: String| p@),
            r@.len() == i,
            forall|j: int| 0 <= j < i ==> r@[j]@ == "\""@ + parts@[j]@ + "\""@,
        decreases parts.len() - i,
    {
        r.push(String::from_str("\"").concat(parts[i].as_str()).concat("\""));
        i = i + 1;
    }
    assert(r@.map_values(|p: String| p@) =~= quoted(views));
    r
}

/// A line of front matter that is present only with its date.
pub open spec fn date_line(label: Seq<char>, date: Option<Timestamp>) -> Seq<char> {
    match date {
        Some(t) => label + rfc3339_text(t.spec_secs(), t.spec_nanos()),
        None => Seq::empty(),
    }
}

/// The markdown form of an entry: a front matter block with title, summary,
/// quoted tags and categories and the dates that are known, then the
/// content.
pub open spec fn markdown_text(e: Entry) -> Seq<char> {
    "---\ntitle: "@ + e.front_matter.title@ + "\nsummary: "@ + e.front_matter.summary@
        + "\ntags: ["@ + join_text(quoted(tag_names(e.front_matter.tags@)), ", "@)
        + "]\ncategories: ["@ + join_text(quoted(category_names(e.front_matter.categories@)), ", "@)
        + "]"@ + date_line("\ndate: "@, e.created.date) + date_line("\nupdated: "@, e.updated.date)
        + "\n---\n\n"@ + match e.content {
        Some(c) => c@,
        None => Seq::empty(),
    }
}

impl Entry {
    /// The markdown form of this entry.
    pub fn to_markdown(&self) -> (r: String)
        ensures
            r@ == markdown_text(*self),
    {
        let categories = join(&quote_all(&names_of_categories(&self.front_matter.categories)), ", ");
        let tags = join(&quote_all(&names_of_tags(&self.front_matter.tags)), ", ");
        let mut text = String::from_str("---\ntitle: ").concat(self.front_matter.title.as_str())
            .concat("\nsummary: ").concat(self.front_matter.summary.as_str()).concat("\ntags: [")
            .concat(tags.as_str()).concat("]\ncategories: [").concat(categories.as_str()).concat(
            "]",
        );
        if let Some(date) = self.created.date {
            text.append("\ndate: ");
            text.append(rfc3339(date).as_str());
        }
        if let Some(date) = self.updated.date {
            text.append("\nupdated: ");
            text.append(rfc3339(date).as_str());
        }
        text.append("\n---\n\n");
        if let Some(content) = &self.content {
            text.append(content.as_str());
        }
        text
    }
}

/// The text of an instant under a strftime-style pattern, in UTC.
pub uninterp spec fn strftime_text(secs: i64, nanos: u32, pattern: Seq<char>) -> Seq<char>;

/// The minute-precision pattern of table cells.
pub open spec fn minute_pattern() -> Seq<char> {
    "%Y-%m-%d %H:%M"@
}

/// The second-precision pattern of entry details.
pub open spec fn second_pattern() -> Seq<char> {
    "%Y-%m-%d %H:%M:%S"@
}

/// Relies on chrono: `DateTime::<Utc>::from_timestamp` names the instant
/// (it does for every value a `Timestamp` holds) and `format` renders it
/// under one of the two patterns used here, both made only of specifiers
/// chrono accepts, as a function of the instant and the pattern alone.
#[verifier::external_body]
fn format_instant(t: Timestamp, pattern: &str) -> (r: String)
    requires
        pattern@ == minute_pattern() || pattern@ == second_pattern(),
    ensures
        r@ == strftime_text(t.spec_secs(), t.spec_nanos(), pattern@),
{
    let instant = chrono::DateTime::from_timestamp(t.secs(), t.nanos()).expect("instant in range");
    instant.format(pattern).to_string()
}

/// The text of a table whose first row is the header, in the default style
/// of the table renderer.
pub uninterp spec fn table_text(rows: Seq<Seq<Seq<char>>>) -> Seq<char>;

/// The cells of a row, as characters.
pub open spec fn cells_text(row: Vec<String>) -> Seq<Seq<char>> {
    row@.map_values(|c: String| c@)
}

/// Relies on tabled: `Builder::from` takes the rows, the first being the
/// header, and `build` then `to_string` render them in the default style,
/// as a function of the cells alone.
#[verifier::external_body]
fn render_table(rows: Vec<Vec<String>>) -> (r: String)
    ensures
        r@ == table_text(rows@.map_values(|row: Vec<String>| cells_text(row))),
{
    tabled::builder::Builder::from(rows).build().to_string()
}

/// The path of a category from its root, levels separated by ` > `.
pub fn category_path(path: &Vec<Category>) -> (r: String)
    ensures
        r@ == join_text(category_names(path@), " > "@),
{
    join(&names_of_categories(path), " > ")
}

/// The header of the entries table.
pub open spec fn entries_header() -> Seq<Seq<char>> {
    seq!["ID"@, "Title"@, "Categories"@, "Tags"@, "Updated"@]
}

/// The row of an entry: its id, title, categories joined by `::`, tags
/// joined by `, `, and the minute of its last update if known.
pub open spec fn entry_row_text(e: Entry) -> Seq<Seq<char>> {
    seq![
        decimal_text(e.entry_id as nat),
        e.front_matter.title@,
        join_text(category_names(e.front_matter.categories@), "::"@),
        join_text(tag_names(e.front_matter.tags@), ", "@),
        match e.updated.date {
            Some(t) => strftime_text(t.spec_secs(), t.spec_nanos(), minute_pattern()),
            None => Seq::empty(),
        },
    ]
}

/// The rows of the entries table: the header, then one row per entry.
pub open spec fn entries_table(es: Seq<Entry>) -> Seq<Seq<Seq<char>>> {
    seq![entries_header()] + es.map_values(|e: Entry| entry_row_text(e))
}

fn text_row5(a: &str, b: &str, c: &str, d: &str, e: &str) -> (r: Vec<String>)
    ensures
        cells_text(r) == seq![a@, b@, c@, d@, e@],
{
    let r = vec![
        String::from_str(a),
        String::from_str(b),
        String::from_str(c),
        String::from_str(d),
        String::from_str(e),
    ];
    assert(cells_text(r) =~= seq![a@, b@, c@, d@, e@]);
    r
}

/// The row of one entry in the entries table.
pub fn entry_row(e: &Entry) -> (r: Vec<String>)
    ensures
        cells_text(r) == entry_row_text(*e),
{
    let id = decimal(e.entry_id);
    let categories = join(&names_of_categories(&e.front_matter.categories), "::");
    let tags = join(&names_of_tags(&e.front_matter.tags), ", ");
    let updated = match e.updated.date {
        Some(t) => format_instant(t, "%Y-%m-%d %H:%M"),
        None => String::new(),
    };
    text_row5(
        id.as_str(),
        e.front_matter.title.as_str(),
        categories.as_str(),
        tags.as_str(),
        updated.as_str(),
    )
}

/// The entries as a table with the columns ID, Title, Categories, Tags and
/// Updated.
pub fn format_entries_table(entries: &[Entry]) -> (r: String)
    ensures
        r@ == table_text(entries_table(entries@)),
{
    let mut rows: Vec<Vec<String>> = Vec::new();
    rows.push(text_row5("ID", "Title", "Categories", "Tags", "Updated"));
    let mut i: usize = 0;
    while i < entries.len()
        invariant
            i <= entries@.len(),
            rows@.len() == i + 1,
            cells_text(rows@[0]) == entries_header(),
            forall|j: int| 0 <= j < i ==> cells_text(#[trigger] rows@[j + 1]) == entry_row_text(entries@[j]),
        decreases entries.len() - i,
    {
        rows.push(entry_row(&entries[i]));
        i = i + 1;
    }
    assert forall|k: int| 1 <= k < rows@.len() implies cells_text(rows@[k]) == entry_row_text(
        entries@[k - 1],
    ) by {
        let j = k - 1;
        assert(cells_text(rows@[j + 1]) == entry_row_text(entries@[j]));
    }
    assert(rows@.map_values(|row: Vec<String>| cells_text(row)) =~= entries_table(entries@));
    render_table(rows)
}

/// The header of the tags table.
pub open spec fn tags_header() -> Seq<Seq<char>> {
    seq!["Tag"@, "Count"@]
}

/// The rows of the tags table: the header, then each tag's name and count.
pub open spec fn tags_table(tags: Seq<TagAndCount>) -> Seq<Seq<Seq<char>>> {
    seq![tags_header()] + tags.map_values(
        |t: TagAndCount| seq![t.name@, decimal_text(t.count as nat)],
    )
}

fn text_row2(a: &str, b: &str) -> (r: Vec<String>)
    ensures
        cells_text(r) == seq![a@, b@],
{
    let r = vec![String::from_str(a), String::from_str(b)];
    assert(cells_text(r) =~= seq![a@, b@]);
    r
}

/// The tags as a table with the columns Tag and Count.
pub fn format_tags_table(tags: &[TagAndCount]) -> (r: String)
    ensures
        r@ == table_text(tags_table(tags@)),
{
    let mut rows: Vec<Vec<String>> = Vec::new();
    rows.push(text_row2("Tag", "Count"));
    let mut i: usize = 0;
    while i < tags.len()
        invariant
            i <= tags@.len(),
            rows@.len() == i + 1,
            cells_text(rows@[0]) == tags_header(),
            forall|j: int|
                0 <= j < i ==> cells_text(#[trigger] rows@[j + 1]) == seq![
                    tags@[j].name@,
                    decimal_text(tags@[j].count as nat),
                ],
        decreases tags.len() - i,
    {
        let count = decimal(tags[i].count as u64);
        rows.push(text_row2(tags[i].name.as_str(), count.as_str()));
        i = i + 1;
    }
    assert forall|k: int| 1 <= k < rows@.len() implies cells_text(rows@[k]) == seq![
        tags@[k - 1].name@,
        decimal_text(tags@[k - 1].count as nat),
    ] by {
        let j = k - 1;
        assert(cells_text(rows@[j + 1]) == seq![tags@[j].name@, decimal_text(tags@[j].count as nat)]);
    }
    assert(rows@.map_values(|row: Vec<String>| cells_text(row)) =~= tags_table(tags@));
    render_table(rows)
}

/// The sum of the counts of tags.
pub open spec fn total_count(tags: Seq<TagAndCount>) -> int
    decreases tags.len(),
{
    if tags.len() == 0 {
        0
    } else {
        total_count(tags.drop_last()) + tags.last().count
    }
}

proof fn lemma_total_count_bound(tags: Seq<TagAndCount>)
    ensures
        0 <= total_count(tags) <= tags.len() * 0xffff_ffff,
    decreases tags.len(),
{
    if tags.len() > 0 {
        lemma_total_count_bound(tags.drop_last());
    }
}

/// How often the tags are used in all: the sum of their counts.
pub fn total_usage(tags: &[TagAndCount]) -> (r: u128)
    ensures
        r == total_count(tags@),
{
    let mut sum: u128 = 0;
    let mut i: usize = 0;
    while i < tags.len()
        invariant
            i <= tags@.len(),
            sum == total_count(tags@.take(i as int)),
        decreases tags.len() - i,
    {
        proof {
            lemma_total_count_bound(tags@.take(i as int));
            assert(tags@.take(i + 1).drop_last() == tags@.take(i as int));
        }
        sum = sum + tags[i].count as u128;
        i = i + 1;
    }
    assert(tags@.take(tags@.len() as int) == tags@);
    sum
}

/// When an author acted, to the second, or `N/A`, then by whom.
pub open spec fn author_text(a: Author) -> Seq<char> {
    let when = match a.date {
        Some(t) => strftime_text(t.spec_secs(), t.spec_nanos(), second_pattern()),
        None => "N/A"@,
    };
    when + " by "@ + a.name@
}

/// The labelled lines that describe an entry in detail.
pub open spec fn detail_lines(e: Entry) -> Seq<Seq<char>> {
    seq![
        "ID:         "@ + decimal_text(e.entry_id as nat),
        "Tenant:     "@ + e.tenant_id@,
        "Title:      "@ + e.front_matter.title@,
        "Summary:    "@ + e.front_matter.summary@,
        "Categories: "@ + join_text(category_names(e.front_matter.categories@), "::"@),
        "Tags:       "@ + join_text(tag_names(e.front_matter.tags@), ", "@),
        "Created:    "@ + author_text(e.created),
        "Updated:    "@ + author_text(e.updated),
    ]
}

fn author_line(label: &str, a: &Author) -> (r: String)
    ensures
        r@ == label@ + author_text(*a),
{
    let when = match a.date {
        Some(t) => format_instant(t, "%Y-%m-%d %H:%M:%S"),
        None => String::from_str("N/A"),
    };
    String::from_str(label).concat(when.as_str()).concat(" by ").concat(a.name.as_str())
}

/// The labelled lines that describe an entry in detail: id, tenant, title,
/// summary, categories, tags, creation and last update.
pub fn entry_details(e: &Entry) -> (r: Vec<String>)
    ensures
        r@.map_values(|p: String| p@) == detail_lines(*e),
{
    let categories = join(&names_of_categories(&e.front_matter.categories), "::");
    let tags = join(&names_of_tags(&e.front_matter.tags), ", ");
    let r = vec![
        String::from_str("ID:         ").concat(decimal(e.entry_id).as_str()),
        String::from_str("Tenant:     ").concat(e.tenant_id.as_str()),
        String::from_str("Title:      ").concat(e.front_matter.title.as_str()),
        String::from_str("Summary:    ").concat(e.front_matter.summary.as_str()),
        String::from_str("Categories: ").concat(categories.as_str()),
        String::from_str("Tags:       ").concat(tags.as_str()),
        author_line("Created:    ", &e.created),
        author_line("Updated:    ", &e.updated),
    ];
    assert(r@.map_values(|p: String| p@) =~= detail_lines(*e));
    r
}

/// Whether one of the entries has the id.
pub fn contains_entry(entries: &[Entry], id: u64) -> (r: bool)
    ensures
        r == exists|i: int| 0 <= i < entries@.len() && entries@[i].entry_id == id,
{
    let mut i: usize = 0;
    while i < entries.len()
        invariant
            i <= entries@.len(),
            forall|j: int| 0 <= j < i ==> entries@[j].entry_id != id,
        decreases entries.len() - i,
    {
        if entries[i].entry_id == id {
            return true;
        }
        i = i + 1;
    }
    false
}

/// How a username is shown: in full when secrets are shown, else its first
/// three characters marked hidden; `(not set)` when there is none.
pub open spec fn username_text(username: Option<Seq<char>>, show_secrets: bool) -> Seq<char> {
    match username {
        Some(u) => if show_secrets {
            u
        } else {
            u.take(if u.len() < 3 {
                u.len() as int
            } else {
                3
            }) + " (hidden)"@
        },
        None => "(not set)"@,
    }
}

/// How a password is shown: never itself, only whether it is set.
pub open spec fn password_text(password: Option<Seq<char>>, show_secrets: bool) -> Seq<char> {
    match password {
        Some(_) => if show_secrets {
            "(set)"@
        } else {
            "(hidden)"@
        },
        None => "(not set)"@,
    }
}

/// How a username is shown by `config show`.
pub fn username_display(username: &Option<String>, show_secrets: bool) -> (r: String)
    ensures
        r@ == username_text(opt_text(*username), show_secrets),
{
    match username {
        Some(u) => if show_secrets {
            u.clone()
        } else {
            let n = u.as_str().unicode_len();
            let keep: usize = if n < 3 {
                n
            } else {
                3
            };
            String::from_str(u.as_str().substring_char(0, keep)).concat(" (hidden)")
        },
        None => String::from_str("(not set)"),
    }
}

/// How a password is shown by `config show`.
pub fn password_display(password: &Option<String>, show_secrets: bool) -> (r: String)
    ensures
        r@ == password_text(opt_text(*password), show_secrets),
{
    match password {
        Some(_) => if show_secrets {
            String::from_str("(set)")
        } else {
            String::from_str("(hidden)")
        },
        None => String::from_str("(not set)"),
    }
}

/// The tags with count `c`, in their order.
pub open spec fn with_count(s: Seq<TagAndCount>, c: u32) -> Seq<TagAndCount>
    decreases s.len(),
{
    if s.len() == 0 {
        Seq::empty()
    } else if s.last().count == c {
        with_count(s.drop_last(), c).push(s.last())
    } else {
        with_count(s.drop_last(), c)
    }
}

/// Whether counts never increase along the sequence.
pub open spec fn counts_descending(s: Seq<TagAndCount>) -> bool {
    forall|i: int, j: int| 0 <= i < j < s.len() ==> s[i].count >= s[j].count
}

proof fn lemma_with_count_absent(s: Seq<TagAndCount>, c: u32)
    requires
        forall|i: int| 0 <= i < s.len() ==> s[i].count != c,
    ensures
        with_count(s, c) == Seq::<TagAndCount>::empty(),
    decreases s.len(),
{
    if s.len() > 0 {
        lemma_with_count_absent(s.drop_last(), c);
    }
}

proof fn lemma_with_count_push(s: Seq<TagAndCount>, x: TagAndCount, c: u32)
    ensures
        with_count(s.push(x), c) == (if x.count == c {
            with_count(s, c).push(x)
        } else {
            with_count(s, c)
        }),
{
    assert(s.push(x).drop_last() == s);
}

fn copy_tag(t: &TagAndCount) -> (r: TagAndCount)
    ensures
        r == *t,
{
    let version = match &t.version {
        Some(v) => Some(v.clone()),
        None => None,
    };
    TagAndCount { name: t.name.clone(), version, count: t.count }
}

/// The largest count below `bound`, if a tag has one.
fn largest_count_below(tags: &Vec<TagAndCount>, bound: u64) -> (r: Option<u32>)
    ensures
        match r {
            Some(m) => (m as u64) < bound && (exists|i: int|
                0 <= i < tags@.len() && tags@[i].count == m) && forall|i: int|
                0 <= i < tags@.len() && (tags@[i].count as u64) < bound ==> tags@[i].count <= m,
            None => forall|i: int| 0 <= i < tags@.len() ==> (tags@[i].count as u64) >= bound,
        },
{
    let mut best: Option<u32> = None;
    let mut k: usize = 0;
    while k < tags.len()
        invariant
            k <= tags@.len(),
            match best {
                Some(m) => (m as u64) < bound && (exists|i: int|
                    0 <= i < k && tags@[i].count == m) && forall|i: int|
                    0 <= i < k && (tags@[i].count as u64) < bound ==> tags@[i].count <= m,
                None => forall|i: int| 0 <= i < k ==> (tags@[i].count as u64) >= bound,
            },
        decreases tags.len() - k,
    {
        let c = tags[k].count;
        if (c as u64) < bound {
            match best {
                Some(m) => {
                    if c > m {
                        best = Some(c);
                    }
                },
                None => {
                    best = Some(c);
                },
            }
        }
        k = k + 1;
    }
    best
}

/// Orders tags by descending count; tags with equal counts keep their
/// order.
pub fn sort_tags_by_count(tags: &mut Vec<TagAndCount>)
    ensures
        counts_descending(final(tags)@),
        forall|c: u32| with_count(final(tags)@, c) == with_count(old(tags)@, c),
{
    let ghost orig = tags@;
    let mut out: Vec<TagAndCount> = Vec::new();
    let mut bound: u64 = 0x1_0000_0000;
    loop
        invariant
            tags@ == orig,
            bound <= 0x1_0000_0000,
            forall|c: u32| (c as u64) >= bound ==> with_count(out@, c) == with_count(orig, c),
            forall|c: u32| (c as u64) < bound ==> with_count(out@, c) == Seq::<TagAndCount>::empty(),
            counts_descending(out@),
            forall|k: int| 0 <= k < out@.len() ==> (out@[k].count as u64) >= bound,
        ensures
            counts_descending(out@),
            forall|c: u32| with_count(out@, c) == with_count(orig, c),
        decreases bound,
    {
        let found = largest_count_below(tags, bound);
        match found {
            None => {
                assert forall|c: u32| with_count(out@, c) == with_count(orig, c) by {
                    if (c as u64) < bound {
                        lemma_with_count_absent(orig, c);
                    }
                }
                break;
            },
            Some(m) => {
                let ghost before = out@;
                let mut i: usize = 0;
                while i < tags.len()
                    invariant
                        tags@ == orig,
                        (m as u64) < bound,
                        i <= orig.len(),
                        with_count(out@, m) == with_count(orig.take(i as int), m),
                        forall|c: u32| c != m ==> with_count(out@, c) == with_count(before, c),
                        counts_descending(out@),
                        forall|k: int| 0 <= k < out@.len() ==> out@[k].count >= m,
                        forall|k: int| 0 <= k < before.len() ==> out@[k] == before[k],
                        before.len() <= out@.len(),
                        forall|k: int| before.len() <= k < out@.len() ==> out@[k].count == m,
                        forall|k: int| 0 <= k < before.len() ==> (before[k].count as u64) >= bound,
                    decreases orig.len() - i,
                {
                    proof {
                        lemma_with_count_push(orig.take(i as int), orig[i as int], m);
                        assert(orig.take(i + 1) == orig.take(i as int).push(orig[i as int]));
                    }
                    if tags[i].count == m {
                        let t = copy_tag(&tags[i]);
                        proof {
                            assert forall|c: u32| true implies with_count(out@.push(t), c) == (if t.count
                                == c {
                                with_count(out@, c).push(t)
                            } else {
                                with_count(out@, c)
                            }) by {
                                lemma_with_count_push(out@, t, c);
                            }
                        }
                        out.push(t);
                    }
                    i = i + 1;
                }
                proof {
                    assert(orig.take(orig.len() as int) == orig);
                    assert forall|c: u32| (c as u64) >= m as u64 implies with_count(out@, c)
                        == with_count(orig, c) by {
                        if c != m {
                            assert(with_count(out@, c) == with_count(before, c));
                            if (c as u64) < bound {
                                assert forall|i: int| 0 <= i < orig.len() implies orig[i].count
                                    != c by {
                                    if orig[i].count == c {
                                        assert(orig[i].count <= m);
                                    }
                                }
                                lemma_with_count_absent(orig, c);
                                assert(with_count(before, c) == Seq::<TagAndCount>::empty());
                            }
                        }
                    }
                    assert forall|c: u32| (c as u64) < m as u64 implies with_count(out@, c)
                        == Seq::<TagAndCount>::empty() by {
                        assert(with_count(out@, c) == with_count(before, c));
                        assert((c as u64) < bound);
                    }
                }
                bound = m as u64;
            },
        }
    }
    *tags = out;
}

/// What an editor starts from when the server offers no template.
pub open spec fn fallback_template_text() -> Seq<char> {
    "---\ntitle: New Entry\nsummary: \ntags: []\ncategories: []\n---\n\n"@
}

/// What a new entry is edited from: the server's template if it could be
/// fetched, else a blank front matter block.
pub fn editor_template(fetched: Result<String, CliError>) -> (r: String)
    ensures
        r@ == match fetched {
            Ok(t) => t@,
            Err(_) => fallback_template_text(),
        },
{
    match fetched {
        Ok(t) => t,
        Err(_) => String::from_str(
            "---\ntitle: New Entry\nsummary: \ntags: []\ncategories: []\n---\n\n",
        ),
    }
}

} // verus!
