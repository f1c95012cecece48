use vstd::prelude::*;
use crate::utils::{all_valid_digits, lemma_three_digit_translation, oct_to_rwx_permissions, rwx_of};

verus! {

/// nix's `Errno`, carried opaque out of the user and group lookups.
#[verifier::external_type_specification]
#[verifier::external_body]
pub struct ExErrno(nix::errno::Errno);

/// Why a listing could not be produced.
#[derive(Debug, Clone, Copy, PartialEq, Eq, Structural)]
pub enum ListError {
    /// The directory does not exist, is not a directory, or cannot be read.
    PathAccessError,
    /// The metadata of one entry could not be read.
    MetadataReadError,
    /// An owner or group id has no name in the system's identity database.
    IdentityResolutionError,
    /// The shifted modification time cannot be shown as a calendar date.
    TimestampRangeError,
}

/// What the listing reads of one entry's filesystem metadata.
#[derive(Debug, Clone, Copy, PartialEq, Eq, Structural)]
pub struct EntryMeta {
    pub is_dir: bool,
    /// The mode bits; the low nine are the permissions.
    pub mode: u32,
    pub nlink: u64,
    pub uid: u32,
    pub gid: u32,
    pub size: u64,
    /// Modification time, in seconds since the epoch (UTC).
    pub mtime: i64,
}

/// A directory entry: its name and its metadata.
#[derive(Debug)]
pub struct Entry {
    pub name: String,
    pub meta: EntryMeta,
}

/// One row of the long listing.
#[derive(Debug)]
pub struct LongListItem {
    pub file_type: char,
    pub permissions: String,
    pub hard_links_count: u64,
    pub owner: String,
    pub group: String,
    pub size: u64,
    pub date: String,
    pub file_name: String,
}

pub open spec fn digit_char(d: nat) -> char {
    if d == 0 {
        '0'
    } else if d == 1 {
        '1'
    } else if d == 2 {
        '2'
    } else if d == 3 {
        '3'
    } else if d == 4 {
        '4'
    } else if d == 5 {
        '5'
    } else if d == 6 {
        '6'
    } else if d == 7 {
        '7'
    } else if d == 8 {
        '8'
    } else {
        '9'
    }
}

/// The decimal digits of `n`, most significant first, without leading zeros.
pub open spec fn decimal(n: nat) -> Seq<char>
    decreases n,
{
    if n < 10 {
        seq![digit_char(n)]
    } else {
        decimal(n / 10).push(digit_char(n % 10))
    }
}

/// The one-character tag of an entry's kind.
pub open spec fn kind_tag(is_dir: bool) -> char {
    if is_dir {
        'd'
    } else {
        '-'
    }
}

/// The low three octal digits of a mode: owner, group, other.
pub open spec fn mode_digits(mode: u32) -> Seq<char> {
    seq![
        digit_char((mode as nat / 64) % 8),
        digit_char((mode as nat / 8) % 8),
        digit_char(mode as nat % 8),
    ]
}

/// A mode whose permission digits all have a symbolic triplet.
pub open spec fn valid_mode(mode: u32) -> bool {
    all_valid_digits(mode_digits(mode))
}

pub open spec fn permissions_of(mode: u32) -> Seq<char> {
    rwx_of(mode_digits(mode))
}

pub open spec fn two_spaces() -> Seq<char> {
    seq![' ', ' ']
}

/// The text of a long-listing row:
/// `{kind}{perms}  {links}  {owner}  {group} {size}  {date} {name}`.
pub open spec fn row_text(
    kind: char,
    perms: Seq<char>,
    links: u64,
    owner: Seq<char>,
    group: Seq<char>,
    size: u64,
    date: Seq<char>,
    name: Seq<char>,
) -> Seq<char> {
    seq![kind] + perms + two_spaces() + decimal(links as nat) + two_spaces() + owner
        + two_spaces() + group + seq![' '] + decimal(size as nat) + two_spaces() + date
        + seq![' '] + name
}

/// The text that `date` holds for a time given in seconds since the epoch:
/// `DD Mon HH:MM`.
pub uninterp spec fn date_display_of(secs: int) -> Seq<char>;

/// A row that shows `meta` and `name`, with some owner and group names and
/// the date of some time less than a day away from the modification time.
pub open spec fn is_long_row(line: Seq<char>, meta: EntryMeta, name: Seq<char>) -> bool {
    exists|owner: Seq<char>, group: Seq<char>, t: int|
        meta.mtime - 86_400 < t < meta.mtime + 86_400 && line == #[trigger] row_text(
            kind_tag(meta.is_dir),
            permissions_of(meta.mode),
            meta.nlink,
            owner,
            group,
            meta.size,
            date_display_of(t),
            name,
        )
}

/// Relies on chrono's `NaiveDateTime::from_timestamp_opt` and its `format`
/// with `%d %h %H:%M`: the text depends on the timestamp alone, and the
/// timestamp is in range for about 262,000 years either side of the epoch.
#[verifier::external_body]
#[allow(deprecated)]
fn format_timestamp(secs: i64) -> (r: Option<String>)
    ensures
        r is Some ==> r->Some_0@ == date_display_of(secs as int),
        -8_000_000_000_000 <= secs <= 8_000_000_000_000 ==> r is Some,
{
    match chrono::NaiveDateTime::from_timestamp_opt(secs, 0) {
        Some(t) => Some(t.format("%d %h %H:%M").to_string()),
        None => None,
    }
}

/// Relies on chrono's `Local::now` and `FixedOffset::local_minus_utc`: the
/// machine's present offset from UTC in seconds, which a `FixedOffset` keeps
/// strictly within one day.
#[verifier::external_body]
fn local_utc_offset() -> (r: i32)
    ensures
        -86_400 < r < 86_400,
{
    chrono::Local::now().offset().local_minus_utc()
}

/// Relies on nix's `User::from_uid` (getpwuid_r): the account name of `uid`,
/// `None` where the user database has no such account.
#[verifier::external_body]
fn user_name(uid: u32) -> (r: Result<Option<String>, nix::errno::Errno>) {
    match nix::unistd::User::from_uid(nix::unistd::Uid::from_raw(uid)) {
        Ok(Some(u)) => Ok(Some(u.name)),
        Ok(None) => Ok(None),
        Err(e) => Err(e),
    }
}

/// Relies on nix's `Group::from_gid` (getgrgid_r): the name of group `gid`,
/// `None` where the group database has no such group.
#[verifier::external_body]
fn group_name(gid: u32) -> (r: Result<Option<String>, nix::errno::Errno>) {
    match nix::unistd::Group::from_gid(nix::unistd::Gid::from_raw(gid)) {
        Ok(Some(g)) => Ok(Some(g.name)),
        Ok(None) => Ok(None),
        Err(e) => Err(e),
    }
}

fn digit_str(d: u64) -> (t: &'static str)
    requires
        d < 10,
    ensures
        t@ == seq![digit_char(d as nat)],
{
    if d == 0 {
        proof { reveal_strlit("0"); }
        "0"
    } else if d == 1 {
        proof { reveal_strlit("1"); }
        "1"
    } else if d == 2 {
        proof { reveal_strlit("2"); }
        "2"
    } else if d == 3 {
        proof { reveal_strlit("3"); }
        "3"
    } else if d == 4 {
        proof { reveal_strlit("4"); }
        "4"
    } else if d == 5 {
        proof { reveal_strlit("5"); }
        "5"
    } else if d == 6 {
        proof { reveal_strlit("6"); }
        "6"
    } else if d == 7 {
        proof { reveal_strlit("7"); }
        "7"
    } else if d == 8 {
        proof { reveal_strlit("8"); }
        "8"
    } else {
        proof { reveal_strlit("9"); }
        "9"
    }
}

/// Appends the decimal digits of `n` to `s`.
fn push_decimal(s: &mut String, n: u64)
    ensures
        final(s)@ == old(s)@ + decimal(n as nat),
    decreases n,
{
    if n >= 10 {
        push_decimal(s, n / 10);
    }
    s.append(digit_str(n % 10));
    assert(s@ =~= old(s)@ + decimal(n as nat));
}

fn push_spaces(s: &mut String, two: bool)
    ensures
        two ==> final(s)@ == old(s)@ + two_spaces(),
        !two ==> final(s)@ == old(s)@ + seq![' '],
{
    if two {
        proof { reveal_strlit("  "); }
        s.append("  ");
    } else {
        proof { reveal_strlit(" "); }
        s.append(" ");
    }
}

/// The permission digits of `mode`, as a three-character string.
fn mode_digit_string(mode: u32) -> (r: String)
    ensures
        r@ == mode_digits(mode),
{
    let mut r = String::new();
    r.append(digit_str(((mode / 64) % 8) as u64));
    r.append(digit_str(((mode / 8) % 8) as u64));
    r.append(digit_str((mode % 8) as u64));
    proof {
        assert(r@ =~= mode_digits(mode));
    }
    r
}

/// The date text of a modification time shifted by `offset` seconds east of
/// UTC. Fails with `TimestampRangeError` only far from the epoch, where the
/// shifted time has no calendar date.
pub fn shifted_date(mtime: i64, offset: i32) -> (r: Result<String, ListError>)
    ensures
        r is Ok ==> r->Ok_0@ == date_display_of(mtime + offset),
        r is Err ==> r->Err_0 == ListError::TimestampRangeError,
        -8_000_000_000_000 <= mtime + offset <= 8_000_000_000_000 ==> r is Ok,
{
    match mtime.checked_add(offset as i64) {
        Some(t) => match format_timestamp(t) {
            Some(d) => Ok(d),
            None => Err(ListError::TimestampRangeError),
        },
        None => Err(ListError::TimestampRangeError),
    }
}

impl LongListItem {
    /// The row shows `meta`, `name`, and the given owner, group and date.
    pub open spec fn describes(
        &self,
        meta: EntryMeta,
        name: Seq<char>,
        owner: Seq<char>,
        group: Seq<char>,
        date: Seq<char>,
    ) -> bool {
        &&& self.file_type == kind_tag(meta.is_dir)
        &&& self.permissions@ == permissions_of(meta.mode)
        &&& self.hard_links_count == meta.nlink
        &&& self.owner@ == owner
        &&& self.group@ == group
        &&& self.size == meta.size
        &&& self.date@ == date
        &&& self.file_name@ == name
    }

    /// The kind tag is one of the two tags, and the permissions are nine
    /// characters long.
    pub open spec fn wf(&self) -> bool {
        &&& (self.file_type == 'd' || self.file_type == '-')
        &&& self.permissions@.len() == 9
    }

    /// The text form of the row.
    pub open spec fn line_view(&self) -> Seq<char> {
        row_text(
            self.file_type,
            self.permissions@,
            self.hard_links_count,
            self.owner@,
            self.group@,
            self.size,
            self.date@,
            self.file_name@,
        )
    }

    /// Builds the row of one entry from its metadata and from the owner
    /// name, group name and date text looked up for it. A missing name
    /// fails with `IdentityResolutionError`; otherwise a missing date fails
    /// with `TimestampRangeError`.
    pub fn assemble(
        meta: &EntryMeta,
        file_name: &str,
        owner: Option<String>,
        group: Option<String>,
        date: Option<String>,
    ) -> (r: Result<LongListItem, ListError>)
        requires
            valid_mode(meta.mode),
        ensures
            owner is None || group is None ==> r == Err::<LongListItem, ListError>(
                ListError::IdentityResolutionError,
            ),
            owner is Some && group is Some && date is None ==> r == Err::<LongListItem, ListError>(
                ListError::TimestampRangeError,
            ),
            owner is Some && group is Some && date is Some ==> r is Ok && r->Ok_0.describes(
                *meta,
                file_name@,
                owner->Some_0@,
                group->Some_0@,
                date->Some_0@,
            ),
            r is Ok ==> r->Ok_0.wf(),
    {
        let owner = match owner {
            Some(o) => o,
            None => {
                return Err(ListError::IdentityResolutionError);
            },
        };
        let group = match group {
            Some(g) => g,
            None => {
                return Err(ListError::IdentityResolutionError);
            },
        };
        let date = match date {
            Some(d) => d,
            None => {
                return Err(ListError::TimestampRangeError);
            },
        };
        let file_type: char = if meta.is_dir {
            'd'
        } else {
            '-'
        };
        let oct = mode_digit_string(meta.mode);
        let permissions = oct_to_rwx_permissions(&oct);
        proof {
            lemma_three_digit_translation(oct@);
        }
        Ok(LongListItem {
            file_type,
            permissions,
            hard_links_count: meta.nlink,
            owner,
            group,
            size: meta.size,
            date,
            file_name: String::from_str(file_name),
        })
    }

    /// Builds the row of one entry: looks up the owner and group names and
    /// shows the modification time shifted by the machine's present offset
    /// from UTC. What the lookups return is not known in advance, so the row
    /// holds some owner and group name.
    pub fn new(meta: &EntryMeta, filename: &str) -> (r: Result<LongListItem, ListError>)
        requires
            valid_mode(meta.mode),
        ensures
            r is Ok ==> r->Ok_0.wf() && exists|owner: Seq<char>, group: Seq<char>, t: int|
                meta.mtime - 86_400 < t < meta.mtime + 86_400 && #[trigger] r->Ok_0.describes(
                    *meta,
                    filename@,
                    owner,
                    group,
                    date_display_of(t),
                ),
            r is Err ==> r->Err_0 == ListError::IdentityResolutionError || r->Err_0
                == ListError::TimestampRangeError,
            r == Err::<LongListItem, ListError>(ListError::TimestampRangeError) ==> !(
            -7_999_999_000_000 <= meta.mtime <= 7_999_999_000_000),
    {
        let owner = match user_name(meta.uid) {
            Ok(Some(n)) => Some(n),
            _ => None,
        };
        let group = match group_name(meta.gid) {
            Ok(Some(n)) => Some(n),
            _ => None,
        };
        let offset = local_utc_offset();
        let date = match shifted_date(meta.mtime, offset) {
            Ok(d) => Some(d),
            Err(_) => None,
        };
        let r = LongListItem::assemble(meta, filename, owner, group, date);
        proof {
            if r is Ok {
                let t = meta.mtime + offset;
                assert(r->Ok_0.describes(
                    *meta,
                    filename@,
                    owner->Some_0@,
                    group->Some_0@,
                    date_display_of(t),
                ));
            }
        }
        r
    }

    /// The text form of the row:
    /// `{kind}{perms}  {links}  {owner}  {group} {size}  {date} {name}`.
    pub fn to_line(&self) -> (r: String)
        requires
            self.wf(),
        ensures
            r@ == self.line_view(),
    {
        let mut s = String::new();
        if self.file_type == 'd' {
            proof { reveal_strlit("d"); }
            s.append("d");
        } else {
            proof { reveal_strlit("-"); }
            s.append("-");
        }
        s.append(self.permissions.as_str());
        push_spaces(&mut s, true);
        push_decimal(&mut s, self.hard_links_count);
        push_spaces(&mut s, true);
        s.append(self.owner.as_str());
        push_spaces(&mut s, true);
        s.append(self.group.as_str());
        push_spaces(&mut s, false);
        push_decimal(&mut s, self.size);
        push_spaces(&mut s, true);
        s.append(self.date.as_str());
        push_spaces(&mut s, false);
        s.append(self.file_name.as_str());
        assert(s@ =~= self.line_view());
        s
    }
}

/// The short listing: each name followed by one space, in the given order.
pub fn standard_ls(names: &Vec<String>) -> (lines: Vec<String>)
    ensures
        lines@.len() == names@.len(),
        forall|i: int| 0 <= i < names@.len() ==> #[trigger] lines@[i]@ == names@[i]@ + seq![' '],
{
    let mut lines: Vec<String> = Vec::new();
    let mut i: usize = 0;
    while i < names.len()
        invariant
            i <= names@.len(),
            lines@.len() == i,
            forall|j: int| 0 <= j < i ==> #[trigger] lines@[j]@ == names@[j]@ + seq![' '],
        decreases names@.len() - i,
    {
        let mut line = names[i].clone();
        push_spaces(&mut line, false);
        lines.push(line);
        i = i + 1;
    }
    lines
}

/// The long listing: one row per entry, in the given order. The first entry
/// whose row cannot be built ends the listing with that row's error.
pub fn list_ls(entries: &Vec<Entry>) -> (r: Result<Vec<String>, ListError>)
    requires
        forall|i: int| 0 <= i < entries@.len() ==> valid_mode(#[trigger] entries@[i].meta.mode),
    ensures
        entries@.len() == 0 ==> r is Ok && r->Ok_0@.len() == 0,
        r is Ok ==> r->Ok_0@.len() == entries@.len() && forall|i: int|
            0 <= i < entries@.len() ==> is_long_row(
                #[trigger] r->Ok_0@[i]@,
                entries@[i].meta,
                entries@[i].name@,
            ),
        r is Err ==> r->Err_0 == ListError::IdentityResolutionError || r->Err_0
            == ListError::TimestampRangeError,
        r == Err::<Vec<String>, ListError>(ListError::TimestampRangeError) ==> exists|i: int|
            0 <= i < entries@.len() && !(-7_999_999_000_000 <= #[trigger] entries@[i].meta.mtime
                <= 7_999_999_000_000),
{
    let mut lines: Vec<String> = Vec::new();
    let mut i: usize = 0;
    while i < entries.len()
        invariant
            i <= entries@.len(),
            lines@.len() == i,
            forall|j: int| 0 <= j < entries@.len() ==> valid_mode(#[trigger] entries@[j].meta.mode),
            forall|j: int|
                0 <= j < i ==> is_long_row(
                    #[trigger] lines@[j]@,
                    entries@[j].meta,
                    entries@[j].name@,
                ),
        decreases entries@.len() - i,
    {
        let entry = &entries[i];
        let item = match LongListItem::new(&entry.meta, entry.name.as_str()) {
            Ok(item) => item,
            Err(e) => {
                proof {
                    if e == ListError::TimestampRangeError {
                        assert(entries@[i as int].meta.mtime == entry.meta.mtime);
                    }
                }
                return Err(e);
            },
        };
        let line = item.to_line();
        proof {
            let (owner, group, t) = choose|owner: Seq<char>, group: Seq<char>, t: int|
                entry.meta.mtime - 86_400 < t < entry.meta.mtime + 86_400
                    && #[trigger] item.describes(
                    entry.meta,
                    entry.name@,
                    owner,
                    group,
                    date_display_of(t),
                );
            assert(line@ == row_text(
                kind_tag(entry.meta.is_dir),
                permissions_of(entry.meta.mode),
                entry.meta.nlink,
                owner,
                group,
                entry.meta.size,
                date_display_of(t),
                entry.name@,
            ));
        }
        lines.push(line);
        i = i + 1;
    }
    Ok(lines)
}

} // verus!
