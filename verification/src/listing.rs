//! Directory listing: turns what the filesystem reported for the children
//! of a directory into normalised entries, in enumeration order, or into
//! the one error that stopped the listing.
//!
//! Kind flags describe the child itself, never the target of a link. Each
//! timestamp comes with the offset of its zone, and is written as the
//! calendar time in that zone.

use vstd::prelude::*;
use vstd::string::StrSliceExecFns;

verus! {

/// An instant as whole seconds and nanoseconds since 1970-01-01 00:00:00
/// UTC, with the offset of the local zone at that instant, in seconds east
/// of UTC.
#[derive(Clone, Copy, Debug, PartialEq, Eq)]
pub struct Timestamp {
    pub secs: i64,
    pub nanos: u32,
    pub offset: i32,
}

/// What one metadata query reported for a child.
#[derive(Debug, PartialEq, Eq)]
pub struct Metadata {
    pub is_dir: bool,
    pub is_file: bool,
    pub is_symlink: bool,
    pub is_block_device: bool,
    pub is_char_device: bool,
    pub is_fifo: bool,
    pub is_socket: bool,
    pub size: u64,
    pub readonly: bool,
    pub mode: u32,
    pub accessed: Result<Timestamp, String>,
    pub created: Result<Timestamp, String>,
    pub modified: Result<Timestamp, String>,
}

/// One enumerated child: its name, its path, and its metadata or the
/// reason why the metadata could not be read.
#[derive(Debug, PartialEq, Eq)]
pub struct Child {
    pub name: String,
    pub path: String,
    pub metadata: Result<Metadata, String>,
}

/// The part of a child that a failed listing could not read.
#[derive(Clone, Copy, Debug, PartialEq, Eq, Structural)]
pub enum Field {
    Entry,
    Metadata,
    Accessed,
    Created,
    Modified,
}

/// One row of a listing.
#[derive(Clone, Debug, PartialEq, Eq)]
pub struct DirectoryEntry {
    pub name: String,
    pub path: String,
    pub is_dir: bool,
    pub is_file: bool,
    pub is_symlink: bool,
    pub is_block_device: bool,
    pub is_char_device: bool,
    pub is_fifo: bool,
    pub is_socket: bool,
    pub size: u64,
    pub readonly: bool,
    pub mode: u32,
    pub accessed: String,
    pub created: String,
    pub modified: String,
}

pub struct EntryView {
    pub name: Seq<char>,
    pub path: Seq<char>,
    pub is_dir: bool,
    pub is_file: bool,
    pub is_symlink: bool,
    pub is_block_device: bool,
    pub is_char_device: bool,
    pub is_fifo: bool,
    pub is_socket: bool,
    pub size: u64,
    pub readonly: bool,
    pub mode: u32,
    pub accessed: Seq<char>,
    pub created: Seq<char>,
    pub modified: Seq<char>,
}

impl View for DirectoryEntry {
    type V = EntryView;

    open spec fn view(&self) -> EntryView {
        EntryView {
            name: self.name@,
            path: self.path@,
            is_dir: self.is_dir,
            is_file: self.is_file,
            is_symlink: self.is_symlink,
            is_block_device: self.is_block_device,
            is_char_device: self.is_char_device,
            is_fifo: self.is_fifo,
            is_socket: self.is_socket,
            size: self.size,
            readonly: self.readonly,
            mode: self.mode,
            accessed: self.accessed@,
            created: self.created@,
            modified: self.modified@,
        }
    }
}

/// Why a listing failed.
#[derive(Clone, Debug, PartialEq, Eq)]
pub enum ListError {
    /// The directory itself could not be opened.
    Unreadable { cause: String },
    /// The directory was opened, but the child at `index` of the
    /// enumeration could not be read in `field`.
    MetadataUnavailable { index: usize, field: Field, cause: String },
}

pub enum ListErrorView {
    Unreadable { cause: Seq<char> },
    MetadataUnavailable { index: int, field: Field, cause: Seq<char> },
}

impl View for ListError {
    type V = ListErrorView;

    open spec fn view(&self) -> ListErrorView {
        match *self {
            ListError::Unreadable { cause } => ListErrorView::Unreadable { cause: cause@ },
            ListError::MetadataUnavailable { index, field, cause } => {
                ListErrorView::MetadataUnavailable { index: index as int, field, cause: cause@ }
            },
        }
    }
}

impl ListErrorView {
    pub open spec fn cause(self) -> Seq<char> {
        match self {
            ListErrorView::Unreadable { cause } => cause,
            ListErrorView::MetadataUnavailable { cause, .. } => cause,
        }
    }
}

impl ListError {
    /// The underlying cause, as text to show.
    pub fn message(&self) -> (m: String)
        ensures
            m@ == self@.cause(),
    {
        match self {
            ListError::Unreadable { cause } => cause.clone(),
            ListError::MetadataUnavailable { cause, .. } => cause.clone(),
        }
    }
}

/// The cause reported for an instant that cannot be written in the fixed
/// shape.
pub open spec fn unrenderable() -> Seq<char> {
    "timestamp out of range"@
}

/// Instants whose calendar time in their zone lies in the years 0000 to
/// 9999, with an offset under a day and a proper nanosecond part.
pub open spec fn renderable(t: Timestamp) -> bool {
    &&& -86_400 < t.offset < 86_400
    &&& t.nanos < 1_000_000_000
    &&& -62_167_219_200 <= t.secs + t.offset <= 253_402_300_799
}

pub open spec fn is_digit(c: char) -> bool {
    '0' <= c <= '9'
}

/// What the fixed shape asks of the character at position `i`.
pub open spec fn shape_at(i: int, c: char) -> bool {
    if i == 4 || i == 7 {
        c == '-'
    } else if i == 10 {
        c == ' '
    } else if i == 13 || i == 16 {
        c == ':'
    } else {
        is_digit(c)
    }
}

/// The fixed-width shape `YYYY-MM-DD HH:MM:SS`.
pub open spec fn timestamp_shaped(s: Seq<char>) -> bool {
    &&& s.len() == 19
    &&& forall|i: int| 0 <= i < 19 ==> shape_at(i, #[trigger] s[i])
}

/// The number written by the two digits at `at` and `at + 1`.
pub open spec fn two_digits(s: Seq<char>, at: int) -> int {
    (s[at] as int - '0' as int) * 10 + (s[at + 1] as int - '0' as int)
}

/// Days from 1970-01-01 to the given day of the proleptic Gregorian
/// calendar.
pub open spec fn days_from_civil(year: int, month: int, day: int) -> int {
    let y = if month <= 2 {
        year - 1
    } else {
        year
    };
    let era = y / 400;
    let year_of_era = y - era * 400;
    let shifted_month = if month > 2 {
        month - 3
    } else {
        month + 9
    };
    let day_of_year = (153 * shifted_month + 2) / 5 + day - 1;
    let day_of_era = year_of_era * 365 + year_of_era / 4 - year_of_era / 100 + day_of_year;
    era * 146_097 + day_of_era - 719_468
}

/// The calendar time that a text of the fixed shape writes, in seconds
/// from 1970-01-01 00:00:00 of the same calendar.
pub open spec fn civil_seconds(s: Seq<char>) -> int {
    days_from_civil(two_digits(s, 0) * 100 + two_digits(s, 2), two_digits(s, 5), two_digits(s, 8))
        * 86_400 + two_digits(s, 11) * 3_600 + two_digits(s, 14) * 60 + two_digits(s, 17)
}

/// The text writes the calendar time of `t` in the zone of `t`.
pub open spec fn denotes(text: Seq<char>, t: Timestamp) -> bool {
    civil_seconds(text) == t.secs + t.offset
}

/// There is a text, of the fixed shape, and it writes the calendar time
/// of `t` in the zone of `t`.
pub open spec fn written(t: Timestamp, text: Option<String>) -> bool {
    match text {
        Some(s) => timestamp_shaped(s@) && denotes(s@, t),
        None => false,
    }
}

/// Writes an instant with the pattern `%Y-%m-%d %H:%M:%S` in the zone that
/// lies `offset` seconds east of UTC.
///
/// Calls chrono's `FixedOffset::east_opt`, `DateTime::from_timestamp`,
/// `DateTime::with_timezone` and `DateTime::format`, on `renderable`
/// instants only. What is taken on trust: chrono refuses neither the
/// offset nor the instant, and the text is the calendar time of the
/// instant moved by the offset, whole seconds only, with year, month, day,
/// hour, minute and second in four and two digits.
#[verifier::external_body]
fn zoned_time_text(secs: i64, nanos: u32, offset: i32) -> (text: Option<String>)
    requires
        renderable((Timestamp { secs, nanos, offset })),
    ensures
        written((Timestamp { secs, nanos, offset }), text),
{
    match (chrono::FixedOffset::east_opt(offset), chrono::DateTime::from_timestamp(secs, nanos)) {
        (Some(zone), Some(utc)) => {
            Some(utc.with_timezone(&zone).format("%Y-%m-%d %H:%M:%S").to_string())
        },
        _ => None,
    }
}

/// Whether the instant is `renderable`.
pub fn is_renderable(t: &Timestamp) -> (b: bool)
    ensures
        b == renderable(*t),
{
    if t.offset <= -86_400 || t.offset >= 86_400 || t.nanos >= 1_000_000_000 {
        return false;
    }
    let first: i64 = -62_167_219_200 - (t.offset as i64);
    let last: i64 = 253_402_300_799 - (t.offset as i64);
    first <= t.secs && t.secs <= last
}

/// Whether `s` has the fixed-width shape.
pub fn has_timestamp_shape(s: &str) -> (b: bool)
    ensures
        b == timestamp_shaped(s@),
{
    if s.unicode_len() != 19 {
        return false;
    }
    let mut i: usize = 0;
    while i < 19
        invariant
            i <= 19,
            s@.len() == 19,
            forall|j: int| 0 <= j < i ==> shape_at(j, #[trigger] s@[j]),
        decreases 19 - i,
    {
        let c = s.get_char(i);
        let fits = if i == 4 || i == 7 {
            c == '-'
        } else if i == 10 {
            c == ' '
        } else if i == 13 || i == 16 {
            c == ':'
        } else {
            '0' <= c && c <= '9'
        };
        if !fits {
            assert(!shape_at(i as int, s@[i as int]));
            return false;
        }
        i += 1;
    }
    true
}

/// `text` is the timestamp as an entry shows it: the instant is
/// `renderable`, and the text has the fixed shape and writes the
/// instant's calendar time in its zone.
pub open spec fn shown(probe: Result<Timestamp, String>, text: Seq<char>) -> bool {
    match probe {
        Ok(t) => renderable(t) && timestamp_shaped(text) && denotes(text, t),
        Err(_) => false,
    }
}

/// What `render` gives for a timestamp probe: a text exactly for an
/// instant that was read and is `renderable`, and then the text that an
/// entry shows.
pub open spec fn rendered(probe: Result<Timestamp, String>, text: Option<String>) -> bool {
    match text {
        Some(s) => shown(probe, s@),
        None => match probe {
            Ok(t) => !renderable(t),
            Err(_) => true,
        },
    }
}

/// The text of a timestamp that was read, in its zone. An instant that
/// is not `renderable` has none, and no text leaves this function that
/// has not the fixed shape.
pub fn render(probe: &Result<Timestamp, String>) -> (text: Option<String>)
    ensures
        rendered(*probe, text),
{
    match probe {
        Ok(t) => {
            if !is_renderable(t) {
                return None;
            }
            match zoned_time_text(t.secs, t.nanos, t.offset) {
                Some(s) => if has_timestamp_shape(s.as_str()) {
                    Some(s)
                } else {
                    None
                },
                None => None,
            }
        },
        Err(_) => None,
    }
}

/// A timestamp field of an entry: the rendered text, or the cause of its
/// absence. A probe that failed keeps its own cause.
pub open spec fn settled(probe: Result<Timestamp, String>, text: Option<String>) -> Result<
    Seq<char>,
    Seq<char>,
> {
    match probe {
        Err(cause) => Err(cause@),
        Ok(_) => match text {
            Some(s) => Ok(s@),
            None => Err(unrenderable()),
        },
    }
}

/// The entry for the child at `index`, given what rendering its three
/// timestamps gave, or the first failure in the order: the child itself,
/// its metadata, then accessed, created and modified.
pub open spec fn normalized(
    index: int,
    child: Result<Child, String>,
    accessed: Option<String>,
    created: Option<String>,
    modified: Option<String>,
) -> Result<EntryView, ListErrorView> {
    match child {
        Err(cause) => Err(
            ListErrorView::MetadataUnavailable { index, field: Field::Entry, cause: cause@ },
        ),
        Ok(c) => match c.metadata {
            Err(cause) => Err(
                ListErrorView::MetadataUnavailable { index, field: Field::Metadata, cause: cause@ },
            ),
            Ok(m) => match settled(m.accessed, accessed) {
                Err(cause) => Err(
                    ListErrorView::MetadataUnavailable { index, field: Field::Accessed, cause },
                ),
                Ok(a) => match settled(m.created, created) {
                    Err(cause) => Err(
                        ListErrorView::MetadataUnavailable { index, field: Field::Created, cause },
                    ),
                    Ok(cr) => match settled(m.modified, modified) {
                        Err(cause) => Err(
                            ListErrorView::MetadataUnavailable {
                                index,
                                field: Field::Modified,
                                cause,
                            },
                        ),
                        Ok(mo) => Ok(
                            EntryView {
                                name: c.name@,
                                path: c.path@,
                                is_dir: m.is_dir,
                                is_file: m.is_file,
                                is_symlink: m.is_symlink,
                                is_block_device: m.is_block_device,
                                is_char_device: m.is_char_device,
                                is_fifo: m.is_fifo,
                                is_socket: m.is_socket,
                                size: m.size,
                                readonly: m.readonly,
                                mode: m.mode,
                                accessed: a,
                                created: cr,
                                modified: mo,
                            },
                        ),
                    },
                },
            },
        },
    }
}

pub open spec fn result_view(r: Result<DirectoryEntry, ListError>) -> Result<
    EntryView,
    ListErrorView,
> {
    match r {
        Ok(e) => Ok(e@),
        Err(e) => Err(e@),
    }
}

fn settle(probe: &Result<Timestamp, String>, text: Option<String>) -> (r: Result<String, String>)
    ensures
        match r {
            Ok(s) => settled(*probe, text) == Ok::<Seq<char>, Seq<char>>(s@),
            Err(c) => settled(*probe, text) == Err::<Seq<char>, Seq<char>>(c@),
        },
{
    match probe {
        Err(cause) => Err(cause.clone()),
        Ok(_) => match text {
            Some(s) => Ok(s),
            None => Err("timestamp out of range".to_string()),
        },
    }
}

/// Normalises the child at `index`, given what rendering its three
/// timestamps gave.
pub fn normalize(
    index: usize,
    child: &Result<Child, String>,
    accessed: Option<String>,
    created: Option<String>,
    modified: Option<String>,
) -> (r: Result<DirectoryEntry, ListError>)
    ensures
        result_view(r) == normalized(index as int, *child, accessed, created, modified),
{
    let c = match child {
        Ok(c) => c,
        Err(cause) => {
            return Err(
                ListError::MetadataUnavailable { index, field: Field::Entry, cause: cause.clone() },
            );
        },
    };
    let m = match &c.metadata {
        Ok(m) => m,
        Err(cause) => {
            return Err(
                ListError::MetadataUnavailable {
                    index,
                    field: Field::Metadata,
                    cause: cause.clone(),
                },
            );
        },
    };
    let a = match settle(&m.accessed, accessed) {
        Ok(a) => a,
        Err(cause) => {
            return Err(ListError::MetadataUnavailable { index, field: Field::Accessed, cause });
        },
    };
    let cr = match settle(&m.created, created) {
        Ok(cr) => cr,
        Err(cause) => {
            return Err(ListError::MetadataUnavailable { index, field: Field::Created, cause });
        },
    };
    let mo = match settle(&m.modified, modified) {
        Ok(mo) => mo,
        Err(cause) => {
            return Err(ListError::MetadataUnavailable { index, field: Field::Modified, cause });
        },
    };
    Ok(
        DirectoryEntry {
            name: c.name.clone(),
            path: c.path.clone(),
            is_dir: m.is_dir,
            is_file: m.is_file,
            is_symlink: m.is_symlink,
            is_block_device: m.is_block_device,
            is_char_device: m.is_char_device,
            is_fifo: m.is_fifo,
            is_socket: m.is_socket,
            size: m.size,
            readonly: m.readonly,
            mode: m.mode,
            accessed: a,
            created: cr,
            modified: mo,
        },
    )
}

/// Every part of the child was read: the child, its metadata and its three
/// timestamps.
pub open spec fn complete(child: Result<Child, String>) -> bool {
    match child {
        Ok(c) => match c.metadata {
            Ok(m) => m.accessed is Ok && m.created is Ok && m.modified is Ok,
            Err(_) => false,
        },
        Err(_) => false,
    }
}

/// The timestamp was read and is `renderable`.
pub open spec fn timestamp_fine(probe: Result<Timestamp, String>) -> bool {
    match probe {
        Ok(t) => renderable(t),
        Err(_) => false,
    }
}

/// The child is complete and each of its timestamps is `renderable`.
pub open spec fn presentable(child: Result<Child, String>) -> bool {
    match child {
        Ok(c) => match c.metadata {
            Ok(m) => {
                &&& timestamp_fine(m.accessed)
                &&& timestamp_fine(m.created)
                &&& timestamp_fine(m.modified)
            },
            Err(_) => false,
        },
        Err(_) => false,
    }
}

/// `entry` carries the name, path, kind flags, size and permissions of a
/// `presentable` child, and for each of its timestamps a text of the fixed
/// shape that writes its calendar time.
pub open spec fn describes(entry: EntryView, child: Result<Child, String>) -> bool {
    match child {
        Ok(c) => match c.metadata {
            Ok(m) => {
                &&& entry.name == c.name@
                &&& entry.path == c.path@
                &&& entry.is_dir == m.is_dir
                &&& entry.is_file == m.is_file
                &&& entry.is_symlink == m.is_symlink
                &&& entry.is_block_device == m.is_block_device
                &&& entry.is_char_device == m.is_char_device
                &&& entry.is_fifo == m.is_fifo
                &&& entry.is_socket == m.is_socket
                &&& entry.size == m.size
                &&& entry.readonly == m.readonly
                &&& entry.mode == m.mode
                &&& shown(m.accessed, entry.accessed)
                &&& shown(m.created, entry.created)
                &&& shown(m.modified, entry.modified)
            },
            Err(_) => false,
        },
        Err(_) => false,
    }
}

/// The timestamp was not read and left `cause`, or it was read, is not
/// `renderable`, and `cause` says that it cannot be written.
pub open spec fn timestamp_fails(probe: Result<Timestamp, String>, cause: Seq<char>) -> bool {
    match probe {
        Err(c) => cause == c@,
        Ok(t) => !renderable(t) && cause == unrenderable(),
    }
}

/// `field` is where `child` fails, with `cause`: it is the first part of
/// the child, in the order child, metadata, accessed, created, modified,
/// that was not read or cannot be written.
pub open spec fn fails_at(child: Result<Child, String>, field: Field, cause: Seq<char>) -> bool {
    match child {
        Err(c) => field == Field::Entry && cause == c@,
        Ok(c) => match c.metadata {
            Err(x) => field == Field::Metadata && cause == x@,
            Ok(m) => match field {
                Field::Accessed => timestamp_fails(m.accessed, cause),
                Field::Created => timestamp_fine(m.accessed) && timestamp_fails(m.created, cause),
                Field::Modified => {
                    &&& timestamp_fine(m.accessed)
                    &&& timestamp_fine(m.created)
                    &&& timestamp_fails(m.modified, cause)
                },
                _ => false,
            },
        },
    }
}

/// The directory was opened and every child in it is `presentable`.
pub open spec fn all_presentable(dir: Result<Vec<Result<Child, String>>, String>) -> bool {
    match dir {
        Ok(children) => forall|i: int|
            0 <= i < children.len() ==> presentable(#[trigger] children@[i]),
        Err(_) => false,
    }
}

/// The directory was opened and some child in it is not `complete`.
pub open spec fn some_incomplete(dir: Result<Vec<Result<Child, String>>, String>) -> bool {
    match dir {
        Ok(children) => exists|i: int|
            0 <= i < children.len() && !complete(#[trigger] children@[i]),
        Err(_) => false,
    }
}

/// The listing failed at the child at `index`, as `fails_at` says.
pub open spec fn stops_at(
    r: Result<Vec<DirectoryEntry>, ListError>,
    index: int,
    child: Result<Child, String>,
) -> bool {
    match r {
        Err(e) => match e@ {
            ListErrorView::MetadataUnavailable { index: at, field, cause } => {
                at == index && fails_at(child, field, cause)
            },
            _ => false,
        },
        Ok(_) => false,
    }
}

/// Where a child was not read in full and every child before it is
/// `presentable`, the listing fails at that child, with the cause that
/// reading it left.
pub open spec fn reports_first_unread(
    dir: Result<Vec<Result<Child, String>>, String>,
    r: Result<Vec<DirectoryEntry>, ListError>,
) -> bool {
    match dir {
        Ok(children) => forall|k: int|
            0 <= k < children.len() && !complete(#[trigger] children@[k]) && (forall|j: int|
                0 <= j < k ==> presentable(#[trigger] children@[j])) ==> stops_at(
                r,
                k,
                children@[k],
            ),
        Err(_) => true,
    }
}

/// Lists a directory from what the filesystem reported: the children in
/// enumeration order, or the reason why the directory could not be opened.
///
/// The entries come out in the order of the children, one for each. The
/// listing succeeds exactly when every child is `presentable`. Else the
/// first child that is not fails the whole listing, at the first part of
/// it that was not read or cannot be written; no partial listing is ever
/// returned.
pub fn list(dir: &Result<Vec<Result<Child, String>>, String>) -> (r: Result<
    Vec<DirectoryEntry>,
    ListError,
>)
    ensures
        match *dir {
            Err(cause) => r matches Err(e) && e@ == (ListErrorView::Unreadable { cause: cause@ }),
            Ok(children) => match r {
                Ok(entries) => {
                    &&& entries.len() == children.len()
                    &&& forall|i: int|
                        0 <= i < children.len() ==> describes(
                            (#[trigger] entries@[i])@,
                            children@[i],
                        )
                },
                Err(e) => {
                    &&& e@ matches ListErrorView::MetadataUnavailable { index, field, cause }
                    &&& 0 <= index < children.len()
                    &&& forall|j: int| 0 <= j < index ==> presentable(#[trigger] children@[j])
                    &&& fails_at(children@[index], field, cause)
                },
            },
        },
        r is Ok <==> all_presentable(*dir),
        some_incomplete(*dir) ==> r is Err,
        reports_first_unread(*dir, r),
{
    match dir {
        Err(cause) => Err(ListError::Unreadable { cause: cause.clone() }),
        Ok(children) => {
            let mut entries: Vec<DirectoryEntry> = Vec::new();
            let mut i: usize = 0;
            while i < children.len()
                invariant
                    *dir == Ok::<Vec<Result<Child, String>>, String>(*children),
                    i <= children.len(),
                    entries.len() == i,
                    forall|k: int| 0 <= k < i ==> describes((#[trigger] entries@[k])@, children@[k]),
                decreases children.len() - i,
            {
                let child = &children[i];
                let (accessed, created, modified) = match child {
                    Ok(c) => match &c.metadata {
                        Ok(m) => (render(&m.accessed), render(&m.created), render(&m.modified)),
                        Err(_) => (None, None, None),
                    },
                    Err(_) => (None, None, None),
                };
                match normalize(i, child, accessed, created, modified) {
                    Ok(entry) => {
                        entries.push(entry);
                    },
                    Err(e) => {
                        assert(!presentable(children@[i as int]));
                        assert forall|k: int|
                            0 <= k < children.len() && !complete(#[trigger] children@[k])
                                && (forall|j: int|
                                0 <= j < k ==> presentable(#[trigger] children@[j])) implies k
                            == i by {
                            if k < i {
                                assert(describes(entries@[k]@, children@[k]));
                            }
                            if k > i {
                                assert(presentable(children@[i as int]));
                            }
                        }
                        assert forall|j: int| 0 <= j < i implies presentable(
                            #[trigger] children@[j],
                        ) by {
                            assert(describes(entries@[j]@, children@[j]));
                        }
                        return Err(e);
                    },
                }
                i += 1;
            }
            assert forall|j: int| 0 <= j < children.len() implies presentable(
                #[trigger] children@[j],
            ) by {
                assert(describes(entries@[j]@, children@[j]));
            }
            Ok(entries)
        },
    }
}

} // verus!
