//! The `fs` command line: which flash partition a format or a listing works on,
//! the range a format erases and what it says, and the lines of the directory
//! listing.

use crate::parse::str_eq;
use vstd::prelude::*;

verus! {

/// Subcommands of `fs`.
#[derive(Clone, Copy, PartialEq, Eq, Structural, Debug)]
pub enum FilesystemSubcommand {
    /// Erase a partition.
    Format,
    /// List the files of a map filesystem.
    Ls,
}

/// What `fs format` erases.
#[derive(Clone, Copy, PartialEq, Eq, Structural, Debug)]
pub enum FormatTarget {
    /// The filesystem partition.
    Fs,
    /// The telemetry partition.
    Telemetry,
    /// Both partitions.
    All,
}

/// The `fs` subcommand named by `s`.
pub open spec fn spec_fs_sub(s: Seq<char>) -> Option<FilesystemSubcommand> {
    if s == "format"@ {
        Some(FilesystemSubcommand::Format)
    } else if s == "ls"@ {
        Some(FilesystemSubcommand::Ls)
    } else {
        None
    }
}

/// The format target named by `s`.
pub open spec fn spec_format_target(s: Seq<char>) -> Option<FormatTarget> {
    if s == "fs"@ {
        Some(FormatTarget::Fs)
    } else if s == "telemetry"@ {
        Some(FormatTarget::Telemetry)
    } else if s == "all"@ {
        Some(FormatTarget::All)
    } else {
        None
    }
}

impl FilesystemSubcommand {
    /// Reads `format` or `ls`.
    pub fn parse(s: &str) -> (r: Result<FilesystemSubcommand, &'static str>)
        ensures
            match spec_fs_sub(s@) {
                Some(c) => r == Ok::<FilesystemSubcommand, &'static str>(c),
                None => r matches Err(e) && e@ == "Invalid fs subcommand. Expected: format, ls"@,
            },
    {
        if str_eq(s, "format") {
            Ok(FilesystemSubcommand::Format)
        } else if str_eq(s, "ls") {
            Ok(FilesystemSubcommand::Ls)
        } else {
            Err("Invalid fs subcommand. Expected: format, ls")
        }
    }
}

impl FormatTarget {
    /// Reads `fs`, `telemetry` or `all`.
    pub fn parse(s: &str) -> (r: Result<FormatTarget, &'static str>)
        ensures
            match spec_format_target(s@) {
                Some(t) => r == Ok::<FormatTarget, &'static str>(t),
                None => r matches Err(e) && e@ == "Invalid format target. Expected: fs, telemetry, all"@,
            },
    {
        if str_eq(s, "fs") {
            Ok(FormatTarget::Fs)
        } else if str_eq(s, "telemetry") {
            Ok(FormatTarget::Telemetry)
        } else if str_eq(s, "all") {
            Ok(FormatTarget::All)
        } else {
            Err("Invalid format target. Expected: fs, telemetry, all")
        }
    }
}

/// How a flash partition is organised.
#[derive(Clone, Copy, PartialEq, Eq, Structural, Debug)]
pub enum PartitionKind {
    /// A key-value filesystem.
    MapFs,
    /// A ring buffer of records.
    QueueFs,
}

/// A flash partition registered with the shell.
#[derive(Clone, Copy, PartialEq, Eq, Debug)]
pub struct NamedPartition {
    /// Name the command line uses.
    pub name: &'static str,
    /// Organisation.
    pub kind: PartitionKind,
    /// First address.
    pub start: u32,
    /// End address (exclusive).
    pub end: u32,
}

/// A resolved partition: its organisation and range.
#[derive(Clone, Copy, PartialEq, Eq, Structural, Debug)]
pub struct ResolvedPartition {
    /// Organisation.
    pub kind: PartitionKind,
    /// First address.
    pub start: u32,
    /// End address (exclusive).
    pub end: u32,
}

/// The resolved form of a registered partition.
pub open spec fn resolved_of(p: NamedPartition) -> ResolvedPartition {
    ResolvedPartition { kind: p.kind, start: p.start, end: p.end }
}

/// Whether `i` is the first partition of `table` named `name`.
pub open spec fn first_named(table: Seq<NamedPartition>, name: Seq<char>, i: int) -> bool {
    &&& 0 <= i < table.len()
    &&& table[i].name@ == name
    &&& forall|j: int| 0 <= j < i ==> #[trigger] table[j].name@ != name
}

/// Whether some partition of `table` is named `name`.
pub open spec fn has_named(table: Seq<NamedPartition>, name: Seq<char>) -> bool {
    exists|i: int| 0 <= i < table.len() && #[trigger] table[i].name@ == name
}

/// The message of a partition that cannot be found.
pub open spec fn not_found_msg() -> Seq<char> {
    "Requested flash partition not found or none registered"@
}

/// What resolving `name` in `table` gives: the first partition so named, or
/// the first partition when no name is given.
pub open spec fn resolve_ok(table: Seq<NamedPartition>, name: Option<Seq<char>>, p: ResolvedPartition) -> bool {
    match name {
        None => table.len() > 0 && p == resolved_of(table[0]),
        Some(n) => named_resolves(table, n, p),
    }
}

/// `p` is the first partition of `table` named `n`.
pub open spec fn named_resolves(table: Seq<NamedPartition>, n: Seq<char>, p: ResolvedPartition) -> bool {
    exists|i: int| #[trigger] first_named(table, n, i) && p == resolved_of(table[i])
}

/// Whether resolving `name` in `table` finds a partition.
pub open spec fn resolvable(table: Seq<NamedPartition>, name: Option<Seq<char>>) -> bool {
    match name {
        None => table.len() > 0,
        Some(n) => has_named(table, n),
    }
}

/// The characters of an optional name.
pub open spec fn name_chars(name: Option<&str>) -> Option<Seq<char>> {
    match name {
        Some(s) => Some(s@),
        None => None,
    }
}

/// The first partition of a name resolves that name.
proof fn lemma_found(table: Seq<NamedPartition>, n: Seq<char>, i: int, p: ResolvedPartition)
    requires
        first_named(table, n, i),
        p == resolved_of(table[i]),
    ensures
        resolve_ok(table, Some(n), p),
        resolvable(table, Some(n)),
{
    assert(table[i].name@ == n);
}

/// Finds the partition `name` (the first registered one when no name is given).
pub fn resolve_partition(table: &Vec<NamedPartition>, name: Option<&str>) -> (r: Result<
    ResolvedPartition,
    &'static str,
>)
    ensures
        resolvable(table@, name_chars(name)) <==> r is Ok,
        match r {
            Ok(p) => resolve_ok(table@, name_chars(name), p),
            Err(e) => e@ == not_found_msg(),
        },
{
    match name {
        None => {
            if table.len() == 0 {
                return Err("Requested flash partition not found or none registered");
            }
            let p = table[0];
            Ok(ResolvedPartition { kind: p.kind, start: p.start, end: p.end })
        },
        Some(n) => {
            let mut i: usize = 0;
            while i < table.len()
                invariant
                    i <= table@.len(),
                    forall|j: int| 0 <= j < i ==> #[trigger] table@[j].name@ != n@,
                    name_chars(name) == Some(n@),
                decreases table@.len() - i,
            {
                let p = table[i];
                if str_eq(p.name, n) {
                    let r = ResolvedPartition { kind: p.kind, start: p.start, end: p.end };
                    proof {
                        assert(p == table@[i as int]);
                        assert(first_named(table@, n@, i as int));
                        assert(r == resolved_of(table@[i as int]));
                        lemma_found(table@, n@, i as int, r);
                        assert(name_chars(name) == Some(n@));
                    }
                    return Ok(r);
                }
                i = i + 1;
            }
            proof {
                assert forall|k: int| 0 <= k < table@.len() implies #[trigger] table@[k].name@ != n@ by {}
            }
            Err("Requested flash partition not found or none registered")
        },
    }
}

/// What a format erases and says.
#[derive(Clone, Copy, PartialEq, Eq, Debug)]
pub struct FormatPlan {
    /// First address erased.
    pub start: u32,
    /// End (exclusive) of the erased range.
    pub end: u32,
    /// Said before erasing.
    pub announce: &'static str,
    /// Said after a successful erase.
    pub done: &'static str,
    /// Whether the system restarts after a successful erase.
    pub reboot: bool,
}

/// Resolves `name` and checks that it has the kind `kind`, failing with
/// `wrong_kind` otherwise.
fn resolve_kind(
    table: &Vec<NamedPartition>,
    name: Option<&str>,
    kind: PartitionKind,
    wrong_kind: &'static str,
) -> (r: Result<ResolvedPartition, &'static str>)
    ensures
        match r {
            Ok(p) => resolve_ok(table@, name_chars(name), p) && p.kind == kind,
            Err(e) => if resolvable(table@, name_chars(name)) {
                e == wrong_kind && forall|p: ResolvedPartition|
                    resolve_ok(table@, name_chars(name), p) ==> p.kind != kind
            } else {
                e@ == not_found_msg()
            },
        },
{
    let p = resolve_partition(table, name)?;
    if p.kind == kind {
        Ok(p)
    } else {
        proof {
            lemma_resolve_unique(table@, name_chars(name), p);
        }
        Err(wrong_kind)
    }
}

/// Resolution has a single answer.
proof fn lemma_resolve_unique(table: Seq<NamedPartition>, name: Option<Seq<char>>, p: ResolvedPartition)
    requires
        resolve_ok(table, name, p),
    ensures
        forall|q: ResolvedPartition| resolve_ok(table, name, q) ==> q == p,
{
    assert forall|q: ResolvedPartition| resolve_ok(table, name, q) implies q == p by {
        if let Some(n) = name {
            let i = choose|i: int| #[trigger] first_named(table, n, i) && p == resolved_of(table[i]);
            let k = choose|k: int| #[trigger] first_named(table, n, k) && q == resolved_of(table[k]);
            if i < k {
                assert(table[i].name@ != n);
            } else if k < i {
                assert(table[k].name@ != n);
            }
        }
    }
}

/// The resolved partition of `name` in `table`, when it resolves.
pub open spec fn resolved(table: Seq<NamedPartition>, name: Option<Seq<char>>) -> ResolvedPartition {
    choose|p: ResolvedPartition| resolve_ok(table, name, p)
}

/// Resolving a name that resolves gives its resolved partition.
proof fn lemma_resolved(table: Seq<NamedPartition>, name: Option<Seq<char>>, p: ResolvedPartition)
    requires
        resolve_ok(table, name, p),
    ensures
        resolved(table, name) == p,
{
    lemma_resolve_unique(table, name, p);
}

/// The partition a format target resolves and the kind it must have, with the
/// message for a partition of another kind: the filesystem target resolves the
/// given name as a map; the telemetry target the given name, or `telemetry`,
/// as a queue.
pub open spec fn spec_format_plan(
    table: Seq<NamedPartition>,
    target: FormatTarget,
    name: Option<Seq<char>>,
) -> Result<(u32, u32), Seq<char>> {
    match target {
        FormatTarget::Fs => if !resolvable(table, name) {
            Err(not_found_msg())
        } else if resolved(table, name).kind != PartitionKind::MapFs {
            Err("Expected a map filesystem partition"@)
        } else {
            Ok((resolved(table, name).start, resolved(table, name).end))
        },
        FormatTarget::Telemetry => {
            let n = match name {
                Some(x) => Some(x),
                None => Some("telemetry"@),
            };
            if !resolvable(table, n) {
                Err(not_found_msg())
            } else if resolved(table, n).kind != PartitionKind::QueueFs {
                Err("Expected a telemetry/queue filesystem partition"@)
            } else {
                Ok((resolved(table, n).start, resolved(table, n).end))
            }
        },
        FormatTarget::All => {
            let m = Some("default"@);
            let q = Some("telemetry"@);
            if !resolvable(table, m) {
                Err(not_found_msg())
            } else if resolved(table, m).kind != PartitionKind::MapFs {
                Err("Expected a map partition named 'default'"@)
            } else if !resolvable(table, q) {
                Err(not_found_msg())
            } else if resolved(table, q).kind != PartitionKind::QueueFs {
                Err("Expected a queue partition named 'telemetry'"@)
            } else {
                Ok((resolved(table, m).start, resolved(table, q).end))
            }
        },
    }
}

/// The range `fs format` erases and what it says: the filesystem partition and
/// `all` restart the system after erasing, the telemetry partition does not;
/// `all` erases from the start of the `default` map partition to the end of the
/// `telemetry` queue partition.
pub fn format_plan(table: &Vec<NamedPartition>, target: FormatTarget, name: Option<&str>) -> (r: Result<
    FormatPlan,
    &'static str,
>)
    ensures
        match spec_format_plan(table@, target, name_chars(name)) {
            Ok((start, end)) => r matches Ok(p) && p.start == start && p.end == end && p.reboot == (target
                != FormatTarget::Telemetry) && p.announce@ == (match target {
                FormatTarget::Fs => "\r\nFormatting filesystem partition..."@,
                FormatTarget::Telemetry => "\r\nFormatting telemetry partition..."@,
                FormatTarget::All => "\r\nFormatting all partitions..."@,
            }) && p.done@ == (if target == FormatTarget::Telemetry {
                "Formatting successful! Telemetry cleared."@
            } else {
                "Formatting successful! Rebooting target system..."@
            }),
            Err(m) => r matches Err(e) && e@ == m,
        },
{
    match target {
        FormatTarget::Fs => {
            let p = resolve_kind(table, name, PartitionKind::MapFs, "Expected a map filesystem partition");
            proof {
                if let Ok(x) = p {
                    lemma_resolved(table@, name_chars(name), x);
                } else if resolvable(table@, name_chars(name)) {
                    lemma_resolvable_resolves(table@, name_chars(name));
                }
            }
            let p = p?;
            Ok(
                FormatPlan {
                    start: p.start,
                    end: p.end,
                    announce: "\r\nFormatting filesystem partition...",
                    done: "Formatting successful! Rebooting target system...",
                    reboot: true,
                },
            )
        },
        FormatTarget::Telemetry => {
            let n = match name {
                Some(x) => x,
                None => "telemetry",
            };
            proof {
                reveal_strlit("telemetry");
                assert(name_chars(Some(n)) == match name_chars(name) {
                    Some(x) => Some(x),
                    None => Some("telemetry"@),
                });
            }
            let p = resolve_kind(
                table,
                Some(n),
                PartitionKind::QueueFs,
                "Expected a telemetry/queue filesystem partition",
            );
            proof {
                if let Ok(x) = p {
                    lemma_resolved(table@, name_chars(Some(n)), x);
                } else if resolvable(table@, name_chars(Some(n))) {
                    lemma_resolvable_resolves(table@, name_chars(Some(n)));
                }
            }
            let p = p?;
            Ok(
                FormatPlan {
                    start: p.start,
                    end: p.end,
                    announce: "\r\nFormatting telemetry partition...",
                    done: "Formatting successful! Telemetry cleared.",
                    reboot: false,
                },
            )
        },
        FormatTarget::All => {
            let m = resolve_kind(
                table,
                Some("default"),
                PartitionKind::MapFs,
                "Expected a map partition named 'default'",
            );
            proof {
                if let Ok(x) = m {
                    lemma_resolved(table@, name_chars(Some("default")), x);
                } else if resolvable(table@, name_chars(Some("default"))) {
                    lemma_resolvable_resolves(table@, name_chars(Some("default")));
                }
            }
            let m = m?;
            let q = resolve_kind(
                table,
                Some("telemetry"),
                PartitionKind::QueueFs,
                "Expected a queue partition named 'telemetry'",
            );
            proof {
                if let Ok(x) = q {
                    lemma_resolved(table@, name_chars(Some("telemetry")), x);
                } else if resolvable(table@, name_chars(Some("telemetry"))) {
                    lemma_resolvable_resolves(table@, name_chars(Some("telemetry")));
                }
            }
            let q = q?;
            Ok(
                FormatPlan {
                    start: m.start,
                    end: q.end,
                    announce: "\r\nFormatting all partitions...",
                    done: "Formatting successful! Rebooting target system...",
                    reboot: true,
                },
            )
        },
    }
}

/// A name that resolves resolves to its resolved partition.
proof fn lemma_resolvable_resolves(table: Seq<NamedPartition>, name: Option<Seq<char>>)
    requires
        resolvable(table, name),
    ensures
        resolve_ok(table, name, resolved(table, name)),
{
    match name {
        None => {
            assert(resolve_ok(table, name, resolved_of(table[0])));
        },
        Some(n) => {
            let k = choose|k: int| 0 <= k < table.len() && #[trigger] table[k].name@ == n;
            lemma_first_named_exists(table, n, k);
            let i = choose|i: int| #[trigger] first_named(table, n, i);
            assert(resolve_ok(table, name, resolved_of(table[i])));
        },
    }
}

/// A name that occurs has a first occurrence.
proof fn lemma_first_named_exists(table: Seq<NamedPartition>, n: Seq<char>, k: int)
    requires
        0 <= k < table.len(),
        table[k].name@ == n,
    ensures
        exists|i: int| #[trigger] first_named(table, n, i),
    decreases k,
{
    if exists|j: int| 0 <= j < k && #[trigger] table[j].name@ == n {
        let j = choose|j: int| 0 <= j < k && #[trigger] table[j].name@ == n;
        lemma_first_named_exists(table, n, j);
    } else {
        assert(first_named(table, n, k));
    }
}

/// The partition `fs ls` lists: the given one (or the first), which must be a
/// map filesystem.
pub fn listing_partition(table: &Vec<NamedPartition>, name: Option<&str>) -> (r: Result<
    ResolvedPartition,
    &'static str,
>)
    ensures
        match r {
            Ok(p) => resolve_ok(table@, name_chars(name), p) && p.kind == PartitionKind::MapFs,
            Err(e) => if resolvable(table@, name_chars(name)) {
                e@ == "Requested partition is not a map filesystem"@ && forall|p: ResolvedPartition|
                    resolve_ok(table@, name_chars(name), p) ==> p.kind != PartitionKind::MapFs
            } else {
                e@ == not_found_msg()
            },
        },
{
    let r = resolve_kind(table, name, PartitionKind::MapFs, "Requested partition is not a map filesystem");
    proof {
        reveal_strlit("Requested partition is not a map filesystem");
    }
    r
}

/// The abstract state of a [`ScratchBuffer`].
pub struct ScratchBufferView {
    /// Whether the shell was given a buffer at all.
    pub configured: bool,
    /// Whether a command holds it.
    pub locked: bool,
}

/// The shell's scratch buffer for filesystem work: one command at a time holds
/// it.
pub struct ScratchBuffer {
    configured: bool,
    locked: bool,
}

impl View for ScratchBuffer {
    type V = ScratchBufferView;

    closed spec fn view(&self) -> ScratchBufferView {
        ScratchBufferView { configured: self.configured, locked: self.locked }
    }
}

/// Why the scratch buffer cannot be taken, if it cannot.
pub open spec fn lock_refusal(v: ScratchBufferView) -> Option<Seq<char>> {
    if v.locked {
        Some("Filesystem scratch buffer is already locked"@)
    } else if !v.configured {
        Some("Filesystem scratch buffer is not configured"@)
    } else {
        None
    }
}

impl ScratchBuffer {
    /// A free buffer of `len` bytes; an empty one counts as not configured.
    pub fn new(len: usize) -> (r: Self)
        ensures
            r@ == (ScratchBufferView { configured: len > 0, locked: false }),
    {
        ScratchBuffer { configured: len > 0, locked: false }
    }

    /// Takes the buffer for a command, or says why it cannot.
    pub fn lock(&mut self) -> (r: Result<(), &'static str>)
        ensures
            match lock_refusal(old(self)@) {
                None => r is Ok && final(self)@ == ScratchBufferView { locked: true, ..old(self)@ },
                Some(m) => r matches Err(e) && e@ == m && final(self)@ == old(self)@,
            },
    {
        if self.locked {
            return Err("Filesystem scratch buffer is already locked");
        }
        if !self.configured {
            return Err("Filesystem scratch buffer is not configured");
        }
        self.locked = true;
        Ok(())
    }

    /// Gives the buffer back.
    pub fn unlock(&mut self)
        ensures
            final(self)@ == (ScratchBufferView { locked: false, ..old(self)@ }),
    {
        self.locked = false;
    }
}

/// What `fs` does: it first takes the scratch buffer, then needs a
/// subcommand; the format target defaults to the filesystem partition. On
/// success the buffer stays taken for the command, which gives it back when
/// done; on failure it is as it was.
pub fn plan_fs_command(
    buffer: &mut ScratchBuffer,
    subcommand: Option<FilesystemSubcommand>,
    target: Option<FormatTarget>,
) -> (r: Result<(FilesystemSubcommand, FormatTarget), &'static str>)
    ensures
        match lock_refusal(old(buffer)@) {
            Some(m) => r matches Err(e) && e@ == m && final(buffer)@ == old(buffer)@,
            None => match subcommand {
                None => r matches Err(e) && e@ == "Missing fs subcommand"@ && final(buffer)@ == old(buffer)@,
                Some(c) => r == Ok::<(FilesystemSubcommand, FormatTarget), &'static str>(
                    (
                        c,
                        match target {
                            Some(t) => t,
                            None => FormatTarget::Fs,
                        },
                    ),
                ) && final(buffer)@ == ScratchBufferView { locked: true, ..old(buffer)@ },
            },
        },
{
    buffer.lock()?;
    let cmd = match subcommand {
        Some(c) => c,
        None => {
            buffer.unlock();
            return Err("Missing fs subcommand");
        },
    };
    let t = match target {
        Some(t) => t,
        None => FormatTarget::Fs,
    };
    Ok((cmd, t))
}

/// Whether `bytes` are valid UTF-8, as `core::str::from_utf8` decides.
pub uninterp spec fn utf8_valid(bytes: Seq<u8>) -> bool;

/// Whether `bytes` are valid UTF-8; calls `core::str::from_utf8`.
#[verifier::external_body]
fn is_utf8(bytes: &[u8]) -> (r: bool)
    ensures
        r == utf8_valid(bytes@),
{
    match core::str::from_utf8(bytes) {
        Ok(_) => true,
        Err(_) => false,
    }
}

/// The newline byte.
pub const NEWLINE: u8 = 10;

/// The finished lines of `bytes` and the line still open at its end.
pub open spec fn lines_acc(bytes: Seq<u8>) -> (Seq<Seq<u8>>, Seq<u8>)
    decreases bytes.len(),
{
    if bytes.len() == 0 {
        (Seq::empty(), Seq::empty())
    } else {
        let (done, cur) = lines_acc(bytes.drop_last());
        if bytes.last() == NEWLINE {
            (
                if cur.len() > 0 {
                    done.push(cur)
                } else {
                    done
                },
                Seq::empty(),
            )
        } else {
            (done, cur.push(bytes.last()))
        }
    }
}

/// The non-empty lines of `bytes`, separated by newlines, in order.
pub open spec fn nonempty_lines(bytes: Seq<u8>) -> Seq<Seq<u8>> {
    let (done, cur) = lines_acc(bytes);
    if cur.len() > 0 {
        done.push(cur)
    } else {
        done
    }
}

/// The finished lines are non-empty and hold no newline, the open line holds
/// no newline, and bytes without a newline are all still open.
proof fn lemma_lines_acc_shape(bytes: Seq<u8>)
    ensures
        forall|i: int|
            0 <= i < lines_acc(bytes).0.len() ==> (#[trigger] lines_acc(bytes).0[i]).len() > 0
                && !lines_acc(bytes).0[i].contains(NEWLINE),
        !lines_acc(bytes).1.contains(NEWLINE),
        !bytes.contains(NEWLINE) ==> lines_acc(bytes).0.len() == 0 && lines_acc(bytes).1 == bytes,
    decreases bytes.len(),
{
    if bytes.len() > 0 {
        let prev = bytes.drop_last();
        lemma_lines_acc_shape(prev);
        let (done, cur) = lines_acc(prev);
        if !bytes.contains(NEWLINE) {
            assert(!prev.contains(NEWLINE)) by {
                if prev.contains(NEWLINE) {
                    let k = choose|k: int| 0 <= k < prev.len() && prev[k] == NEWLINE;
                    assert(bytes[k] == NEWLINE);
                }
            }
            assert(bytes.last() != NEWLINE) by {
                assert(bytes[bytes.len() - 1] == bytes.last());
            }
            assert(cur.push(bytes.last()) =~= bytes);
        }
        if bytes.last() != NEWLINE {
            assert(!cur.push(bytes.last()).contains(NEWLINE)) by {
                if cur.push(bytes.last()).contains(NEWLINE) {
                    let k = choose|k: int| 0 <= k < cur.len() + 1 && cur.push(bytes.last())[k] == NEWLINE;
                    if k < cur.len() {
                        assert(cur[k] == NEWLINE);
                    }
                }
            }
        } else {
            assert(!Seq::<u8>::empty().contains(NEWLINE));
            if cur.len() > 0 {
                assert forall|i: int| 0 <= i < done.push(cur).len() implies (#[trigger] done.push(cur)[i]).len()
                    > 0 && !done.push(cur)[i].contains(NEWLINE) by {
                    if i < done.len() {
                        assert(done.push(cur)[i] == done[i]);
                    }
                }
            }
        }
    }
}

/// Lines of bytes that follow a closed line are read on their own.
proof fn lemma_lines_acc_append(a: Seq<u8>, b: Seq<u8>)
    requires
        lines_acc(a).1.len() == 0,
    ensures
        lines_acc(a + b) == (lines_acc(a).0 + lines_acc(b).0, lines_acc(b).1),
    decreases b.len(),
{
    if b.len() == 0 {
        assert(a + b =~= a);
        assert(lines_acc(a).0 + Seq::<Seq<u8>>::empty() =~= lines_acc(a).0);
        assert(lines_acc(a).1 =~= Seq::<u8>::empty());
    } else {
        let b0 = b.drop_last();
        lemma_lines_acc_append(a, b0);
        assert((a + b).drop_last() =~= a + b0);
        assert((a + b).last() == b.last());
        let (d, c) = lines_acc(b0);
        let pre = lines_acc(a).0;
        if b.last() == NEWLINE && c.len() > 0 {
            assert((pre + d).push(c) =~= pre + d.push(c));
        }
    }
}

/// The names of a listing: each is a non-empty run of bytes without a newline;
/// a listing without a newline is one name (none when empty); and the names of
/// two listings joined by a newline are those of the first, then those of the
/// second.
pub proof fn lemma_listing_lines(a: Seq<u8>, b: Seq<u8>)
    ensures
        forall|i: int|
            0 <= i < nonempty_lines(a).len() ==> (#[trigger] nonempty_lines(a)[i]).len() > 0
                && !nonempty_lines(a)[i].contains(NEWLINE),
        !a.contains(NEWLINE) ==> nonempty_lines(a) == (if a.len() > 0 {
            seq![a]
        } else {
            Seq::<Seq<u8>>::empty()
        }),
        nonempty_lines(a.push(NEWLINE) + b) == nonempty_lines(a) + nonempty_lines(b),
{
    lemma_lines_acc_shape(a);
    let (done, cur) = lines_acc(a);
    if cur.len() > 0 {
        assert forall|i: int| 0 <= i < done.push(cur).len() implies (#[trigger] done.push(cur)[i]).len() > 0
            && !done.push(cur)[i].contains(NEWLINE) by {
            if i < done.len() {
                assert(done.push(cur)[i] == done[i]);
            }
        }
    }
    if !a.contains(NEWLINE) {
        assert(done =~= Seq::<Seq<u8>>::empty());
        if a.len() > 0 {
            assert(done.push(cur) =~= seq![a]);
        }
    }
    let an = a.push(NEWLINE);
    assert(an.drop_last() =~= a);
    assert(lines_acc(an) == (nonempty_lines(a), Seq::<u8>::empty()));
    lemma_lines_acc_append(an, b);
    let (db, cb) = lines_acc(b);
    if cb.len() > 0 {
        assert((nonempty_lines(a) + db).push(cb) =~= nonempty_lines(a) + db.push(cb));
    }
}

/// The contents of each of a sequence of byte vectors.
pub open spec fn line_views(v: Seq<Vec<u8>>) -> Seq<Seq<u8>> {
    v.map_values(|x: Vec<u8>| x@)
}

/// The file names of a directory listing, one per non-empty line; `None` when
/// the listing is not valid UTF-8.
pub fn dir_listing_lines(list: &[u8]) -> (r: Option<Vec<Vec<u8>>>)
    ensures
        r is Some <==> utf8_valid(list@),
        r matches Some(lines) ==> line_views(lines@) == nonempty_lines(list@),
{
    if !is_utf8(list) {
        return None;
    }
    let mut done: Vec<Vec<u8>> = Vec::new();
    let mut cur: Vec<u8> = Vec::new();
    let mut i: usize = 0;
    proof {
        assert(list@.take(0) =~= Seq::<u8>::empty());
        assert(line_views(done@) =~= Seq::<Seq<u8>>::empty());
    }
    while i < list.len()
        invariant
            i <= list@.len(),
            (line_views(done@), cur@) == lines_acc(list@.take(i as int)),
        decreases list@.len() - i,
    {
        let b = list[i];
        proof {
            assert(list@.take(i as int + 1).drop_last() =~= list@.take(i as int));
            assert(list@.take(i as int + 1).last() == b);
        }
        if b == NEWLINE {
            if cur.len() > 0 {
                let line = cur;
                cur = Vec::new();
                let ghost before = done@;
                done.push(line);
                proof {
                    assert(done@ == before.push(line));
                    assert(line_views(done@) =~= line_views(before).push(line@));
                }
            } else {
                cur = Vec::new();
            }
            proof {
                assert(cur@ =~= Seq::<u8>::empty());
            }
        } else {
            cur.push(b);
        }
        i = i + 1;
    }
    proof {
        assert(list@.take(list@.len() as int) =~= list@);
    }
    if cur.len() > 0 {
        let ghost before = done@;
        let line = cur;
        done.push(line);
        proof {
            assert(done@ == before.push(line));
                    assert(line_views(done@) =~= line_views(before).push(line@));
        }
    }
    Some(done)
}

} // verus!
