use vstd::prelude::*;

use std::sync::Arc;

use crate::backends::{magic_kind, BackendKind, BackendOpeners, ReadOnlyBackend};
use crate::block::{share, BlockGeometry, BlockReader, PartitionReader};
use crate::error::{Error, ErrorCategory};
use crate::filesystem::{
    spec_normalize, scan_path, path_error_text, DirectoryEntry, FileKind, FilesystemInfo, FsPath,
    NodeMetadata, ReadOnlyFilesystem,
};
use crate::partition::{discover_layout, spec_discover, views, LayoutView, PartitionView, SourceLayout};
use crate::providers::ImageFiles;
use crate::text::{concat, decimal, hex_bytes, hex_lower, push_decimal, str_eq, texts};

verus! {

/// A command of the inspection tool.
#[derive(Debug, Clone, PartialEq, Eq)]
pub enum Command {
    Inspect { image: String },
    List { image: String, path: FsPath },
    Cat { image: String, path: FsPath },
}

/// A command as plain values.
pub enum CommandView {
    Inspect(Seq<char>),
    List(Seq<char>, Seq<char>),
    Cat(Seq<char>, Seq<char>),
}

impl View for Command {
    type V = CommandView;

    open spec fn view(&self) -> CommandView {
        match self {
            Command::Inspect { image } => CommandView::Inspect(image@),
            Command::List { image, path } => CommandView::List(image@, path@),
            Command::Cat { image, path } => CommandView::Cat(image@, path@),
        }
    }
}

/// The usage line.
pub open spec fn usage_text() -> Seq<char> {
    "usage: linuxfs <inspect IMAGE | ls IMAGE [PATH] | cat IMAGE PATH>"@
}

/// The error for a surplus argument.
pub open spec fn extra_argument_text(arg: Seq<char>) -> Seq<char> {
    "unexpected argument `"@ + arg + "`"@
}

/// The command named by `args`, or the message explaining why there is none.
pub open spec fn spec_parse_args(args: Seq<Seq<char>>) -> Result<CommandView, Seq<char>> {
    let n = args.len();
    if n == 0 {
        Err(usage_text())
    } else {
        let command = args[0];
        if command == "inspect"@ {
            if n < 2 {
                Err("inspect requires an image path"@)
            } else if n > 2 {
                Err(extra_argument_text(args[2]))
            } else {
                Ok(CommandView::Inspect(args[1]))
            }
        } else if command == "ls"@ || command == "list"@ {
            let path = if n >= 3 {
                args[2]
            } else {
                "/"@
            };
            if n < 2 {
                Err("ls requires an image path"@)
            } else if n > 3 {
                Err(extra_argument_text(args[3]))
            } else {
                match spec_normalize(path) {
                    None => Err(path_error_text(path)),
                    Some(p) => Ok(CommandView::List(args[1], p)),
                }
            }
        } else if command == "cat"@ {
            if n < 2 {
                Err("cat requires an image path"@)
            } else if n < 3 {
                Err("cat requires a filesystem path"@)
            } else if n > 3 {
                Err(extra_argument_text(args[3]))
            } else {
                match spec_normalize(args[2]) {
                    None => Err(path_error_text(args[2])),
                    Some(p) => Ok(CommandView::Cat(args[1], p)),
                }
            }
        } else if command == "help"@ || command == "--help"@ || command == "-h"@ {
            Err(usage_text())
        } else {
            Err("unknown command `"@ + command + "`\n"@ + usage_text())
        }
    }
}

/// `ls IMAGE PATH` (or `list IMAGE PATH`) lists the directory the user named,
/// in normal form: the very path from which `cat IMAGE PATH` reads, never the
/// root in its place; without a path it lists the root.
pub proof fn lemma_ls_lists_the_named_directory(image: Seq<char>, path: Seq<char>)
    requires
        spec_normalize(path) is Some,
    ensures
        spec_parse_args(seq!["ls"@, image, path]) == Ok::<CommandView, Seq<char>>(
            CommandView::List(image, spec_normalize(path).unwrap()),
        ),
        spec_parse_args(seq!["list"@, image, path]) == spec_parse_args(seq!["ls"@, image, path]),
        spec_parse_args(seq!["cat"@, image, path]) matches Ok(CommandView::Cat(i, p))
            && spec_parse_args(seq!["ls"@, image, path]) == Ok::<CommandView, Seq<char>>(
            CommandView::List(i, p),
        ),
        spec_parse_args(seq!["ls"@, image]) == Ok::<CommandView, Seq<char>>(
            CommandView::List(image, seq!['/']),
        ),
{
    reveal_strlit("inspect");
    reveal_strlit("ls");
    reveal_strlit("list");
    reveal_strlit("cat");
    reveal_strlit("/");
    assert("ls"@.len() == 2 && "list"@.len() == 4 && "inspect"@.len() == 7);
    assert("ls"@ != "inspect"@);
    assert("list"@ != "inspect"@ && "list"@ != "ls"@);
    assert("cat"@ != "inspect"@ && "cat"@ != "ls"@ && "cat"@ != "list"@);
    let args = seq!["ls"@, image, path];
    assert(args[0] == "ls"@ && args[1] == image && args[2] == path);
    let listed = seq!["list"@, image, path];
    assert(listed[0] == "list"@ && listed[1] == image && listed[2] == path);
    let read = seq!["cat"@, image, path];
    assert(read[0] == "cat"@ && read[1] == image && read[2] == path);
    let bare = seq!["ls"@, image];
    assert(bare[0] == "ls"@ && bare[1] == image);
    let root = seq!['/'];
    assert("/"@ =~= root);
    assert(root.drop_last() =~= Seq::<char>::empty());
    assert(!root.contains('\0')) by {
        if root.contains('\0') {
            let k = choose|k: int| 0 <= k < root.len() && root[k] == '\0';
            assert(root[k] == '/');
        }
    }
    assert(scan_path(Seq::<char>::empty()) == Some((Seq::<char>::empty(), Seq::<char>::empty())));
    assert(root.last() == '/');
    assert(scan_path(root) == Some((Seq::<char>::empty(), Seq::<char>::empty())));
    assert(spec_normalize(root) == Some(root));
}

/// The text of each argument.
pub open spec fn arg_views(args: Seq<String>) -> Seq<Seq<char>> {
    args.map_values(|a: String| a@)
}

fn usage() -> (s: String)
    ensures
        s@ == usage_text(),
{
    String::from_str("usage: linuxfs <inspect IMAGE | ls IMAGE [PATH] | cat IMAGE PATH>")
}

fn extra_argument(arg: &str) -> (s: String)
    ensures
        s@ == extra_argument_text(arg@),
{
    let mut s = concat("unexpected argument `", arg);
    s.append("`");
    s
}

/// Parses the arguments of the inspection tool (without the program name).
pub fn parse_args(args: &[String]) -> (r: Result<Command, String>)
    ensures
        match spec_parse_args(arg_views(args@)) {
            Ok(c) => r matches Ok(cmd) && cmd@ == c,
            Err(m) => r matches Err(msg) && msg@ == m,
        },
{
    let ghost views = arg_views(args@);
    let n = args.len();
    assert(views.len() == n);
    if n == 0 {
        return Err(usage());
    }
    let command = args[0].as_str();
    assert(views[0] == command@);
    if str_eq(command, "inspect") {
        if n < 2 {
            return Err(String::from_str("inspect requires an image path"));
        }
        if n > 2 {
            assert(views[2] == args@[2]@);
            return Err(extra_argument(args[2].as_str()));
        }
        assert(views[1] == args@[1]@);
        return Ok(Command::Inspect { image: args[1].clone() });
    }
    if str_eq(command, "ls") || str_eq(command, "list") {
        if n < 2 {
            return Err(String::from_str("ls requires an image path"));
        }
        if n > 3 {
            assert(views[3] == args@[3]@);
            return Err(extra_argument(args[3].as_str()));
        }
        let path_text: &str = if n >= 3 {
            args[2].as_str()
        } else {
            "/"
        };
        assert(n >= 3 ==> views[2] == args@[2]@);
        assert(views[1] == args@[1]@);
        return match FsPath::parse(path_text) {
            Ok(path) => Ok(Command::List { image: args[1].clone(), path }),
            Err(error) => Err(error.to_string()),
        };
    }
    if str_eq(command, "cat") {
        if n < 2 {
            return Err(String::from_str("cat requires an image path"));
        }
        if n < 3 {
            return Err(String::from_str("cat requires a filesystem path"));
        }
        if n > 3 {
            assert(views[3] == args@[3]@);
            return Err(extra_argument(args[3].as_str()));
        }
        assert(views[1] == args@[1]@);
        assert(views[2] == args@[2]@);
        return match FsPath::parse(args[2].as_str()) {
            Ok(path) => Ok(Command::Cat { image: args[1].clone(), path }),
            Err(error) => Err(error.to_string()),
        };
    }
    if str_eq(command, "help") || str_eq(command, "--help") || str_eq(command, "-h") {
        return Err(usage());
    }
    let mut message = concat("unknown command `", command);
    message.append("`\n");
    let u = usage();
    message.append(u.as_str());
    Err(message)
}

/// The label of an entry's kind in a listing.
pub fn entry_kind(entry: &DirectoryEntry) -> (s: &'static str)
    ensures
        s@ == match entry.metadata.kind {
            FileKind::Directory => "dir"@,
            FileKind::Regular => "file"@,
            FileKind::Symlink => "link"@,
            FileKind::Other => "other"@,
        },
{
    match entry.metadata.kind {
        FileKind::Directory => "dir",
        FileKind::Regular => "file",
        FileKind::Symlink => "link",
        FileKind::Other => "other",
    }
}

/// A UUID as 32 lower-case hexadecimal digits.
pub fn hex_uuid(uuid: [u8; 16]) -> (s: String)
    ensures
        s@ == hex_bytes(uuid@, false),
{
    hex_lower(uuid.as_slice())
}

/// Receives the output of a command.
pub trait OutputSink {
    fn write_all(&mut self, bytes: &[u8]) -> crate::error::Result<()>;
}

/// The line of an optional text detail, none where it is unknown.
pub open spec fn text_detail(name: Seq<char>, value: Option<String>) -> Seq<Seq<char>> {
    match value {
        Some(v) => seq![name + "="@ + v@ + "\n"@],
        None => Seq::empty(),
    }
}

/// The line of an optional number, none where it is unknown.
pub open spec fn number_detail(name: Seq<char>, value: Option<u64>) -> Seq<Seq<char>> {
    match value {
        Some(n) => seq![name + "="@ + decimal(n as nat) + "\n"@],
        None => Seq::empty(),
    }
}

/// The line of an optional UUID, none where it is unknown.
pub open spec fn uuid_detail(value: Option<[u8; 16]>) -> Seq<Seq<char>> {
    match value {
        Some(uuid) => seq!["uuid="@ + hex_bytes(uuid@, false) + "\n"@],
        None => Seq::empty(),
    }
}

/// The block size as a number, where it is known.
pub open spec fn widened(value: Option<u32>) -> Option<u64> {
    match value {
        Some(n) => Some(n as u64),
        None => None,
    }
}

/// The lines that `inspect` prints about the filesystem of `image`: the source,
/// the filesystem type, each detail that is known, and the access mode.
pub open spec fn inspect_lines(image: Seq<char>, info: FilesystemInfo) -> Seq<Seq<char>> {
    seq!["source="@ + image + "\n"@, "filesystem="@ + info.filesystem_type@ + "\n"@]
        + text_detail("label"@, info.label) + uuid_detail(info.uuid) + number_detail(
        "block_size"@,
        widened(info.block_size),
    ) + number_detail("total_size"@, info.total_size) + number_detail("free_size"@, info.free_size)
        + seq!["access=read-only\n"@]
}

fn numbered_line(name: &str, value: u64) -> (r: String)
    ensures
        r@ == name@ + "="@ + decimal(value as nat) + "\n"@,
{
    let mut line = String::from_str(name);
    line.append("=");
    push_decimal(&mut line, value);
    line.append("\n");
    line
}

/// The lines that `inspect` prints about the filesystem of `image`.
pub fn inspect_report(image: &str, info: &FilesystemInfo) -> (r: Vec<String>)
    ensures
        crate::text::texts(r@) == inspect_lines(image@, *info),
{
    let mut lines: Vec<String> = Vec::new();
    let mut line = String::from_str("source=");
    line.append(image);
    line.append("\n");
    lines.push(line);
    let mut line = String::from_str("filesystem=");
    line.append(info.filesystem_type.as_str());
    line.append("\n");
    lines.push(line);
    let ghost base = crate::text::texts(lines@);
    let ghost label_part = text_detail("label"@, info.label);
    match &info.label {
        Some(label) => {
            let mut line = String::from_str("label");
            line.append("=");
            line.append(label.as_str());
            line.append("\n");
            lines.push(line);
        },
        None => {},
    }
    assert(crate::text::texts(lines@) =~= base + label_part);
    let ghost base = crate::text::texts(lines@);
    let ghost uuid_part = uuid_detail(info.uuid);
    match info.uuid {
        Some(uuid) => {
            let mut line = String::from_str("uuid=");
            let digits = hex_uuid(uuid);
            line.append(digits.as_str());
            line.append("\n");
            lines.push(line);
        },
        None => {},
    }
    assert(crate::text::texts(lines@) =~= base + uuid_part);
    let ghost base = crate::text::texts(lines@);
    let ghost block_part = number_detail("block_size"@, widened(info.block_size));
    match info.block_size {
        Some(n) => lines.push(numbered_line("block_size", n as u64)),
        None => {},
    }
    assert(crate::text::texts(lines@) =~= base + block_part);
    let ghost base = crate::text::texts(lines@);
    let ghost total_part = number_detail("total_size"@, info.total_size);
    match info.total_size {
        Some(n) => lines.push(numbered_line("total_size", n)),
        None => {},
    }
    assert(crate::text::texts(lines@) =~= base + total_part);
    let ghost base = crate::text::texts(lines@);
    let ghost free_part = number_detail("free_size"@, info.free_size);
    match info.free_size {
        Some(n) => lines.push(numbered_line("free_size", n)),
        None => {},
    }
    assert(crate::text::texts(lines@) =~= base + free_part);
    let ghost base = crate::text::texts(lines@);
    lines.push(String::from_str("access=read-only\n"));
    assert(crate::text::texts(lines@) =~= base + seq!["access=read-only\n"@]);
    lines
}

/// The line of one entry in a listing: its kind, a tab, its name.
pub fn listing_line(entry: &DirectoryEntry) -> (r: String)
    ensures
        r@ == (match entry.metadata.kind {
            FileKind::Directory => "dir"@,
            FileKind::Regular => "file"@,
            FileKind::Symlink => "link"@,
            FileKind::Other => "other"@,
        }) + "\t"@ + entry.name@ + "\n"@,
{
    let mut line = String::from_str(entry_kind(entry));
    line.append("\t");
    line.append(entry.name.as_str());
    line.append("\n");
    line
}

/// Writes the UTF-8 bytes of `line` to `output`: the result and the new output
/// are what that one write gives.
pub fn write_line<W: OutputSink>(output: &mut W, line: &str) -> (r: crate::error::Result<()>)
    ensures
        exists|o: &mut W, bytes: &[u8]|
            #[trigger] call_ensures(W::write_all, (o, bytes), r) && bytes@ == vstd::string::StringSliceAdditionalSpecFns::spec_bytes(line) && *o
                == *old(output) && *final(o) == *final(output),
{
    let bytes = line.as_bytes();
    output.write_all(bytes)
}

/// The largest piece of a file that `cat` reads at once.
pub const STREAM_CHUNK: u64 = 65536;

/// Copies the regular file at `path` to `output` in pieces of at most
/// `STREAM_CHUNK` bytes, until its recorded size is reached.
pub fn stream_file<FS: ReadOnlyFilesystem, W: OutputSink>(
    filesystem: &FS,
    path: &FsPath,
    output: &mut W,
) -> (r: crate::error::Result<()>)
    ensures
        exists|m: crate::error::Result<NodeMetadata>|
            #[trigger] call_ensures(FS::lookup, (filesystem, path), m) && match m {
                Err(e) => r == Err::<(), Error>(e) && *final(output) == *old(output),
                Ok(metadata) => {
                    &&& metadata.kind != FileKind::Regular ==> (r matches Err(e) && e.kind()
                        == ErrorCategory::InvalidImage && e.text() == "cat requires a regular file"@
                        && *final(output) == *old(output))
                    &&& metadata.kind == FileKind::Regular && metadata.size == 0 ==> (r is Ok
                        && *final(output) == *old(output))
                    &&& exists|o: &mut W|
                        *o == *old(output) && *final(o) == *final(output) && #[trigger] call_ensures(
                            copy_file::<FS, W>,
                            (filesystem, path, metadata, o),
                            r,
                        )
                },
            },
{
    let looked_up = filesystem.lookup(path);
    let metadata = match looked_up {
        Ok(metadata) => metadata,
        Err(e) => return Err(e),
    };
    let ghost before = *output;
    let r = copy_file(filesystem, path, metadata, output);
    assert(exists|o: &mut W|
        *o == before && *final(o) == *output && #[trigger] call_ensures(
            copy_file::<FS, W>,
            (filesystem, path, metadata, o),
            r,
        ));
    r
}

/// One piece of `cat`: reads at most `requested` bytes of the file at `path`
/// from `offset` into a fresh buffer of that length and writes what was read to
/// `output`, returning those bytes. A read of nothing is `FilesystemCorrupt`, a
/// read of more than was asked is `Internal`, and a failed read or write gives
/// its error; only the write changes `output`.
pub fn copy_chunk<FS: ReadOnlyFilesystem, W: OutputSink>(
    filesystem: &FS,
    path: &FsPath,
    offset: u64,
    requested: usize,
    output: &mut W,
) -> (r: crate::error::Result<Vec<u8>>)
    ensures
        exists|d: &mut [u8], read: crate::error::Result<usize>|
            d@.len() == requested && #[trigger] call_ensures(FS::read_file_at, (filesystem, path, offset, d), read) && {
                ||| (read matches Err(e) && r == Err::<Vec<u8>, Error>(e)) && *final(output) == *old(output)
                ||| (read matches Ok(n) && n == 0 && (r matches Err(e) && e.kind() == ErrorCategory::FilesystemCorrupt))
                    && *final(output) == *old(output)
                ||| (read matches Ok(n) && n > requested && (r matches Err(e) && e.kind() == ErrorCategory::Internal))
                    && *final(output) == *old(output)
                ||| read matches Ok(n) && 0 < n <= requested && exists|o: &mut W, b: &[u8], w: crate::error::Result<()>|
                    *o == *old(output) && *final(o) == *final(output) && b@ == final(d)@.take(n as int)
                        && #[trigger] call_ensures(W::write_all, (o, b), w) && ((w matches Err(e) && r == Err::<Vec<u8>, Error>(e))
                        || (w is Ok && (r matches Ok(bytes) && bytes@ == b@)))
            },
{
    let mut chunk: Vec<u8> = vec![0u8; requested];
    let read = filesystem.read_file_at(path, offset, chunk.as_mut_slice());
    let ghost read_result = read;
    assert(exists|d: &mut [u8]|
        #[trigger] call_ensures(FS::read_file_at, (filesystem, path, offset, d), read_result) && d@.len() == requested
            && final(d)@ == chunk@);
    let count = match read {
        Ok(count) => count,
        Err(e) => return Err(e),
    };
    if count == 0 {
        return Err(Error::new(ErrorCategory::FilesystemCorrupt, "file ended before its recorded size"));
    }
    if count > requested {
        return Err(Error::new(ErrorCategory::Internal, "file read count exceeds the request"));
    }
    let ghost read_bytes = chunk@;
    chunk.truncate(count);
    assert(chunk@ == read_bytes.take(count as int));
    let written = output.write_all(chunk.as_slice());
    assert(exists|o: &mut W, b: &[u8]|
        #[trigger] call_ensures(W::write_all, (o, b), written) && b@ == chunk@ && *o == *old(output) && *final(o)
            == *output);
    match written {
        Ok(_) => Ok(chunk),
        Err(e) => Err(e),
    }
}

/// How many bytes `cat` asks for at `offset` of a file of `size` bytes: what is
/// left of it, at most `STREAM_CHUNK`.
pub open spec fn chunk_len(size: u64, offset: int) -> int {
    if size - offset < STREAM_CHUNK {
        size - offset
    } else {
        STREAM_CHUNK as int
    }
}

/// Whether `offsets` are where the pieces `chunks` of a file of `size` bytes
/// start, one after the other from 0, with one more offset where the last ends,
/// and each piece holds at least one byte and at most what was asked.
pub open spec fn pieces_follow(size: u64, chunks: Seq<Seq<u8>>, offsets: Seq<u64>) -> bool {
    &&& offsets.len() == chunks.len() + 1
    &&& offsets[0] == 0
    &&& offsets.last() <= size
    &&& forall|i: int|
        0 <= i < chunks.len() ==> 0 < (#[trigger] chunks[i]).len() <= chunk_len(size, offsets[i] as int)
            && offsets[i + 1] == offsets[i] + chunks[i].len()
}

/// Copying one more piece, after pieces that were each copied, gives pieces that
/// were each copied.
proof fn lemma_pieces_extend<FS: ReadOnlyFilesystem, W: OutputSink>(
    filesystem: &FS,
    path: &FsPath,
    size: u64,
    chunks: Seq<Seq<u8>>,
    outs: Seq<W>,
    offsets: Seq<u64>,
    piece: Seq<u8>,
    next: W,
)
    requires
        pieces_follow(size, chunks, offsets),
        outs.len() == chunks.len() + 1,
        forall|i: int|
            #![trigger chunks[i]]
            0 <= i < chunks.len() ==> chunks[i].len() > 0 && exists|o: &mut W, res: crate::error::Result<Vec<u8>>|
                *o == outs[i] && *final(o) == outs[i + 1] && #[trigger] call_ensures(
                    copy_chunk::<FS, W>,
                    (filesystem, path, offsets[i], chunk_len(size, offsets[i] as int) as usize, o),
                    res,
                ) && (res matches Ok(bytes) && bytes@ == chunks[i]),
        0 < piece.len() <= chunk_len(size, offsets.last() as int),
        exists|o: &mut W, res: crate::error::Result<Vec<u8>>|
            *o == outs.last() && *final(o) == next && #[trigger] call_ensures(
                copy_chunk::<FS, W>,
                (filesystem, path, offsets.last(), chunk_len(size, offsets.last() as int) as usize, o),
                res,
            ) && (res matches Ok(bytes) && bytes@ == piece),
    ensures
        pieces_follow(size, chunks.push(piece), offsets.push((offsets.last() + piece.len()) as u64)),
        forall|i: int|
            #![trigger chunks.push(piece)[i]]
            0 <= i < chunks.len() + 1 ==> chunks.push(piece)[i].len() > 0 && exists|o: &mut W, res: crate::error::Result<Vec<u8>>|
                *o == outs.push(next)[i] && *final(o) == outs.push(next)[i + 1] && #[trigger] call_ensures(
                    copy_chunk::<FS, W>,
                    (
                        filesystem,
                        path,
                        offsets.push((offsets.last() + piece.len()) as u64)[i],
                        chunk_len(size, offsets.push((offsets.last() + piece.len()) as u64)[i] as int) as usize,
                        o,
                    ),
                    res,
                ) && (res matches Ok(bytes) && bytes@ == chunks.push(piece)[i]),
{
    let c2 = chunks.push(piece);
    let o2 = offsets.push((offsets.last() + piece.len()) as u64);
    let w2 = outs.push(next);
    assert forall|i: int| 0 <= i < c2.len() implies 0 < (#[trigger] c2[i]).len() <= chunk_len(size, o2[i] as int)
        && o2[i + 1] == o2[i] + c2[i].len() by {
        if i < chunks.len() {
            assert(c2[i] == chunks[i]);
            assert(o2[i] == offsets[i] && o2[i + 1] == offsets[i + 1]);
        }
    }
    assert forall|i: int|
        #![trigger c2[i]]
        0 <= i < chunks.len() + 1 implies c2[i].len() > 0 && exists|o: &mut W, res: crate::error::Result<Vec<u8>>|
            *o == w2[i] && *final(o) == w2[i + 1] && #[trigger] call_ensures(
                copy_chunk::<FS, W>,
                (filesystem, path, o2[i], chunk_len(size, o2[i] as int) as usize, o),
                res,
            ) && (res matches Ok(bytes) && bytes@ == c2[i]) by {
        if i < chunks.len() {
            assert(c2[i] == chunks[i] && o2[i] == offsets[i] && w2[i] == outs[i] && w2[i + 1] == outs[i + 1]);
        } else {
            assert(c2[i] == piece && o2[i] == offsets.last() && w2[i] == outs.last() && w2[i + 1] == next);
        }
    }
}

/// Copies the file at `path`, whose metadata is `metadata`, to `output`: only a
/// regular file is copied. From offset 0 on, it copies one piece after another
/// with [`copy_chunk`], each asking for what is left of the file but at most
/// `STREAM_CHUNK` bytes and starting where the last ended, until the recorded
/// size is reached; the first piece that fails ends the copy with its error.
pub fn copy_file<FS: ReadOnlyFilesystem, W: OutputSink>(
    filesystem: &FS,
    path: &FsPath,
    metadata: NodeMetadata,
    output: &mut W,
) -> (r: crate::error::Result<()>)
    ensures
        metadata.kind != FileKind::Regular ==> (r matches Err(e) && e.kind()
            == ErrorCategory::InvalidImage && e.text() == "cat requires a regular file"@),
        metadata.kind == FileKind::Regular && metadata.size == 0 ==> r is Ok,
        metadata.kind != FileKind::Regular || metadata.size == 0 ==> *final(output) == *old(output),
        metadata.kind == FileKind::Regular ==> exists|chunks: Seq<Seq<u8>>, outs: Seq<W>, offsets: Seq<u64>|
            {
                &&& pieces_follow(metadata.size, chunks, offsets)
                &&& outs.len() == chunks.len() + 1
                &&& outs[0] == *old(output)
                &&& forall|i: int|
                    #![trigger chunks[i]]
                    0 <= i < chunks.len() ==> chunks[i].len() > 0 && exists|o: &mut W, res: crate::error::Result<Vec<u8>>|
                        *o == outs[i] && *final(o) == outs[i + 1] && #[trigger] call_ensures(
                            copy_chunk::<FS, W>,
                            (filesystem, path, offsets[i], chunk_len(metadata.size, offsets[i] as int) as usize, o),
                            res,
                        ) && (res matches Ok(bytes) && bytes@ == chunks[i])
                &&& r is Ok ==> offsets.last() == metadata.size && *final(output) == outs.last()
                &&& r is Err ==> offsets.last() < metadata.size && exists|o: &mut W, res: crate::error::Result<Vec<u8>>|
                    *o == outs.last() && *final(o) == *final(output) && #[trigger] call_ensures(
                        copy_chunk::<FS, W>,
                        (filesystem, path, offsets.last(), chunk_len(metadata.size, offsets.last() as int) as usize, o),
                        res,
                    ) && (res matches Err(e) && r == Err::<(), Error>(e))
            },
{
    if metadata.kind != FileKind::Regular {
        return Err(Error::new(ErrorCategory::InvalidImage, "cat requires a regular file"));
    }
    let mut offset: u64 = 0;
    let ghost mut chunks: Seq<Seq<u8>> = Seq::empty();
    let ghost mut outs: Seq<W> = seq![*output];
    let ghost mut offsets: Seq<u64> = seq![0u64];
    while offset < metadata.size
        invariant
            metadata.kind == FileKind::Regular,
            metadata.size == 0 ==> *output == *old(output),
            pieces_follow(metadata.size, chunks, offsets),
            offset == offsets.last(),
            outs.len() == chunks.len() + 1,
            outs[0] == *old(output),
            outs.last() == *output,
            forall|i: int|
                #![trigger chunks[i]]
                0 <= i < chunks.len() ==> chunks[i].len() > 0 && exists|o: &mut W, res: crate::error::Result<Vec<u8>>|
                    *o == outs[i] && *final(o) == outs[i + 1] && #[trigger] call_ensures(
                        copy_chunk::<FS, W>,
                        (filesystem, path, offsets[i], chunk_len(metadata.size, offsets[i] as int) as usize, o),
                        res,
                    ) && (res matches Ok(bytes) && bytes@ == chunks[i]),
        decreases metadata.size - offset,
    {
        let remaining = metadata.size - offset;
        let requested: usize = if remaining < STREAM_CHUNK {
            remaining as usize
        } else {
            STREAM_CHUNK as usize
        };
        assert(requested == chunk_len(metadata.size, offset as int) as usize);
        let ghost before_output = *output;
        let copied = copy_chunk(filesystem, path, offset, requested, output);
        assert(exists|o: &mut W|
            *o == before_output && *final(o) == *output && #[trigger] call_ensures(
                copy_chunk::<FS, W>,
                (filesystem, path, offset, requested, o),
                copied,
            ));
        let bytes = match copied {
            Ok(bytes) => bytes,
            Err(e) => return Err(e),
        };
        assert(0 < bytes@.len() <= requested);
        proof {
            lemma_pieces_extend(
                filesystem,
                path,
                metadata.size,
                chunks,
                outs,
                offsets,
                bytes@,
                *output,
            );
            chunks = chunks.push(bytes@);
            outs = outs.push(*output);
            offsets = offsets.push((offset + bytes@.len()) as u64);
        }
        offset = offset + bytes.len() as u64;
    }
    Ok(())
}

/// Whether a backend of `kind` is what the magic at the start of the `length`
/// bytes of `image` from `offset` on announces.
pub open spec fn announces(kind: BackendKind, image: Seq<u8>, offset: int, length: int) -> bool {
    length >= 4 && kind == magic_kind(image.subrange(offset, offset + 4))
}

/// Whether a backend of `kind` fits `image`: the magic of the whole image
/// announces it where the image has no partition table, else that of one of its
/// partitions.
pub open spec fn fits_image(kind: BackendKind, image: Seq<u8>) -> bool {
    match spec_discover(image, 512) {
        Some(LayoutView::DirectImage) => announces(kind, image, 0, image.len() as int),
        Some(LayoutView::Mbr(partitions)) => exists|i: int|
            0 <= i < partitions.len() && #[trigger] announces(
                kind,
                image,
                partitions[i].byte_offset as int,
                partitions[i].byte_length as int,
            ),
        Some(LayoutView::Gpt(partitions)) => exists|i: int|
            0 <= i < partitions.len() && #[trigger] announces(
                kind,
                image,
                partitions[i].byte_offset as int,
                partitions[i].byte_length as int,
            ),
        None => false,
    }
}

/// Whether `res` is what opening partition `p` of the image `reader` reads
/// gives: the error of bounding a reader to the partition, else what opening a
/// backend on that bounded reader gives.
pub open spec fn partition_attempt<R: BlockReader + 'static, O: BackendOpeners>(
    reader: Arc<R>,
    openers: &O,
    p: PartitionView,
    res: crate::error::Result<ReadOnlyBackend<O::Ext, O::Squashfs, O::Xfs>>,
) -> bool {
    exists|bounded: crate::error::Result<PartitionReader<R>>|
        #[trigger] call_ensures(PartitionReader::<R>::new, (reader, p.byte_offset, p.byte_length), bounded)
            && match bounded {
            Err(e) => res == Err::<ReadOnlyBackend<O::Ext, O::Squashfs, O::Xfs>, Error>(e),
            Ok(view) => exists|shared: Arc<PartitionReader<R>>|
                *shared == view && #[trigger] call_ensures(
                    ReadOnlyBackend::<O::Ext, O::Squashfs, O::Xfs>::open::<PartitionReader<R>, O>,
                    (shared, openers),
                    res,
                ),
        }
}

/// Whether `r` is what trying the partitions `parts` in order gives: the
/// attempts made are on a prefix of `parts`, each but the last failed, the
/// outcome is that of the last one, and trying stops early only on success; with
/// no partition at all the outcome is an `UnsupportedFilesystem` error.
pub open spec fn opened_first<R: BlockReader + 'static, O: BackendOpeners>(
    reader: Arc<R>,
    openers: &O,
    parts: Seq<PartitionView>,
    r: crate::error::Result<ReadOnlyBackend<O::Ext, O::Squashfs, O::Xfs>>,
) -> bool {
    exists|attempts: Seq<crate::error::Result<ReadOnlyBackend<O::Ext, O::Squashfs, O::Xfs>>>|
        #[trigger] tried_in_order::<R, O>(reader, openers, parts, attempts, r)
}

/// The attempts of `opened_first`, spelled out.
pub open spec fn tried_in_order<R: BlockReader + 'static, O: BackendOpeners>(
    reader: Arc<R>,
    openers: &O,
    parts: Seq<PartitionView>,
    attempts: Seq<crate::error::Result<ReadOnlyBackend<O::Ext, O::Squashfs, O::Xfs>>>,
    r: crate::error::Result<ReadOnlyBackend<O::Ext, O::Squashfs, O::Xfs>>,
) -> bool {
    &&& attempts.len() <= parts.len()
    &&& forall|j: int|
        0 <= j < attempts.len() ==> #[trigger] partition_attempt::<R, O>(
            reader,
            openers,
            parts[j],
            attempts[j],
        )
    &&& forall|j: int| 0 <= j < attempts.len() - 1 ==> (#[trigger] attempts[j]) is Err
    &&& attempts.len() < parts.len() ==> r is Ok
    &&& attempts.len() > 0 ==> r == attempts.last()
    &&& attempts.len() == 0 ==> (r matches Err(e) && e.kind() == ErrorCategory::UnsupportedFilesystem)
}

/// Opens the filesystem of the image `reader` reads: the whole image where it has
/// no partition table, else its first partition that a backend opens; where none
/// does, the last partition's error, or `UnsupportedFilesystem` for a table
/// without partitions.
pub fn open_image_filesystem<R: BlockReader + 'static, O: BackendOpeners>(reader: Arc<R>, openers: &O) -> (r:
    crate::error::Result<ReadOnlyBackend<O::Ext, O::Squashfs, O::Xfs>>)
    ensures
        r matches Ok(backend) ==> fits_image(backend.backend_kind(), (*reader).bytes()),
        (*reader).reliable() && spec_discover((*reader).bytes(), 512) is None ==> (r matches Err(e)
            && e.kind() == ErrorCategory::PartitionTable),
        (*reader).reliable() && spec_discover((*reader).bytes(), 512) == Some(
            LayoutView::Gpt(Seq::empty()),
        ) ==> (r matches Err(e) && e.kind() == ErrorCategory::UnsupportedFilesystem),
        exists|geometry: BlockGeometry, found: crate::error::Result<SourceLayout>|
            geometry.sector_size() == 512 && #[trigger] call_ensures(
                discover_layout::<R>,
                (&*reader, geometry),
                found,
            ) && match found {
                Err(e) => r == Err::<ReadOnlyBackend<O::Ext, O::Squashfs, O::Xfs>, Error>(e),
                Ok(SourceLayout::DirectImage) => call_ensures(
                    ReadOnlyBackend::<O::Ext, O::Squashfs, O::Xfs>::open::<R, O>,
                    (reader, openers),
                    r,
                ),
                Ok(SourceLayout::Mbr { partitions }) => opened_first::<R, O>(
                    reader,
                    openers,
                    views(partitions@),
                    r,
                ),
                Ok(SourceLayout::Gpt { partitions }) => opened_first::<R, O>(
                    reader,
                    openers,
                    views(partitions@),
                    r,
                ),
            },
{
    let ghost image = (*reader).bytes();
    let geometry = BlockGeometry::raw_image_512();
    let found = discover_layout(&*reader, geometry);
    let ghost found_result = found;
    assert(call_ensures(discover_layout::<R>, (&*reader, geometry), found_result));
    let layout = match found {
        Ok(layout) => layout,
        Err(e) => {
            return Err(e);
        },
    };
    let partitions = match layout {
        SourceLayout::DirectImage => {
            let opened = ReadOnlyBackend::open(reader, openers);
            let ghost opened_result = opened;
            assert(call_ensures(
                ReadOnlyBackend::<O::Ext, O::Squashfs, O::Xfs>::open::<R, O>,
                (reader, openers),
                opened_result,
            ));
            return opened;
        },
        SourceLayout::Mbr { partitions } => partitions,
        SourceLayout::Gpt { partitions } => partitions,
    };
    let ghost parts = views(partitions@);
    assert(found_result == Ok::<SourceLayout, Error>(SourceLayout::Mbr { partitions })
        || found_result == Ok::<SourceLayout, Error>(SourceLayout::Gpt { partitions }));
    assert(spec_discover(image, 512) == Some(LayoutView::Mbr(parts)) || spec_discover(image, 512)
        == Some(LayoutView::Gpt(parts)));
    let ghost mut attempts: Seq<crate::error::Result<ReadOnlyBackend<O::Ext, O::Squashfs, O::Xfs>>> =
        Seq::empty();
    let mut last_error: Option<Error> = None;
    let mut i: usize = 0;
    while i < partitions.len()
        invariant
            i <= partitions@.len(),
            parts == views(partitions@),
            image == (*reader).bytes(),
            spec_discover(image, 512) == Some(LayoutView::Mbr(parts)) || spec_discover(image, 512)
                == Some(LayoutView::Gpt(parts)),
            geometry.sector_size() == 512,
            call_ensures(discover_layout::<R>, (&*reader, geometry), found_result),
            found_result == Ok::<SourceLayout, Error>(SourceLayout::Mbr { partitions })
                || found_result == Ok::<SourceLayout, Error>(SourceLayout::Gpt { partitions }),
            attempts.len() == i,
            forall|j: int|
                0 <= j < i ==> #[trigger] partition_attempt::<R, O>(
                    reader,
                    openers,
                    parts[j],
                    attempts[j],
                ),
            forall|j: int| 0 <= j < i ==> (#[trigger] attempts[j]) is Err,
            i == 0 ==> last_error is None,
            i > 0 ==> (last_error matches Some(e) && attempts.last() == Err::<
                ReadOnlyBackend<O::Ext, O::Squashfs, O::Xfs>,
                Error,
            >(e)),
        decreases partitions@.len() - i,
    {
        let partition = partitions[i];
        assert(parts[i as int] == partition@);
        let shared = share(&reader);
        let bounded = PartitionReader::new(shared, partition.byte_offset, partition.byte_length);
        let ghost bounded_result = bounded;
        assert(call_ensures(
            PartitionReader::<R>::new,
            (reader, partition.byte_offset, partition.byte_length),
            bounded_result,
        ));
        match bounded {
            Ok(view) => {
                let ghost view_value = view;
                let view = Arc::new(view);
                let ghost bytes = (*view).bytes();
                let ghost view_arc = view;
                let opened = ReadOnlyBackend::open(view, openers);
                let ghost opened_result = opened;
                proof {
                    assert(*view_arc == view_value);
                    assert(call_ensures(
                        ReadOnlyBackend::<O::Ext, O::Squashfs, O::Xfs>::open::<PartitionReader<R>, O>,
                        (view_arc, openers),
                        opened_result,
                    ));
                    assert(partition_attempt::<R, O>(reader, openers, parts[i as int], opened_result));
                }
                match opened {
                    Ok(backend) => {
                        proof {
                            assert(bytes.subrange(0, 4) =~= image.subrange(
                                partition.byte_offset as int,
                                partition.byte_offset + 4,
                            ));
                            assert(announces(
                                backend.backend_kind(),
                                image,
                                parts[i as int].byte_offset as int,
                                parts[i as int].byte_length as int,
                            ));
                            assert(parts.len() > 0);
                            assert(parts != Seq::<PartitionView>::empty());
                            let done = attempts.push(opened_result);
                            assert(done[i as int] == opened_result);
                            assert forall|j: int| 0 <= j < done.len() implies #[trigger] partition_attempt::<R, O>(
                                reader,
                                openers,
                                parts[j],
                                done[j],
                            ) by {
                                if j < i {
                                    assert(done[j] == attempts[j]);
                                }
                            }
                            assert forall|j: int| 0 <= j < done.len() - 1 implies (#[trigger] done[j]) is Err by {
                                assert(done[j] == attempts[j]);
                            }
                            assert(tried_in_order::<R, O>(reader, openers, parts, done, Ok(backend)));
                        }
                        return Ok(backend);
                    },
                    Err(error) => {
                        proof {
                            attempts = attempts.push(opened_result);
                        }
                        last_error = Some(error);
                    },
                }
            },
            Err(error) => {
                proof {
                    assert(partition_attempt::<R, O>(
                        reader,
                        openers,
                        parts[i as int],
                        Err::<ReadOnlyBackend<O::Ext, O::Squashfs, O::Xfs>, Error>(error),
                    ));
                    attempts = attempts.push(Err::<ReadOnlyBackend<O::Ext, O::Squashfs, O::Xfs>, Error>(error));
                }
                last_error = Some(error);
            },
        }
        i = i + 1;
    }
    let r = match last_error {
        Some(error) => Err(error),
        None => Err(
            Error::new(
                ErrorCategory::UnsupportedFilesystem,
                "no supported filesystem found in image partitions",
            ),
        ),
    };
    proof {
        assert(tried_in_order::<R, O>(reader, openers, parts, attempts, r));
    }
    r
}

/// Opens the image at `image` read-only and its filesystem, as
/// [`open_image_filesystem`] does.
pub fn open_filesystem<F: ImageFiles, O: BackendOpeners>(files: &F, openers: &O, image: &str) -> (r:
    crate::error::Result<ReadOnlyBackend<O::Ext, O::Squashfs, O::Xfs>>)
    ensures
        exists|opened: crate::error::Result<F::Reader>|
            #[trigger] call_ensures(F::open, (files, image), opened) && match opened {
                Err(e) => r == Err::<ReadOnlyBackend<O::Ext, O::Squashfs, O::Xfs>, Error>(e),
                Ok(reader) => {
                    &&& r matches Ok(backend) ==> fits_image(backend.backend_kind(), reader.bytes())
                    &&& reader.reliable() && spec_discover(reader.bytes(), 512) is None ==> (r matches Err(
                        e,
                    ) && e.kind() == ErrorCategory::PartitionTable)
                    &&& reader.reliable() && spec_discover(reader.bytes(), 512) == Some(
                        LayoutView::Gpt(Seq::empty()),
                    ) ==> (r matches Err(e) && e.kind() == ErrorCategory::UnsupportedFilesystem)
                    &&& exists|shared: Arc<F::Reader>|
                        *shared == reader && #[trigger] call_ensures(
                            open_image_filesystem::<F::Reader, O>,
                            (shared, openers),
                            r,
                        )
                },
            },
{
    let opened = files.open(image);
    let ghost opened_result = opened;
    assert(call_ensures(F::open, (files, image), opened_result));
    match opened {
        Err(e) => Err(e),
        Ok(file) => {
            let reader = Arc::new(file);
            let ghost shared = reader;
            let r = open_image_filesystem(reader, openers);
            assert(call_ensures(open_image_filesystem::<F::Reader, O>, (shared, openers), r));
            r
        },
    }
}

/// The image a command reads.
pub open spec fn command_image(command: CommandView) -> Seq<char> {
    match command {
        CommandView::Inspect(image) => image,
        CommandView::List(image, _) => image,
        CommandView::Cat(image, _) => image,
    }
}

/// Whether `r` can be the outcome of a command on the image named `image`, as
/// far as opening it decides: the error of opening it where that failed, and
/// success only where a backend fits the source it opened.
pub open spec fn follows_open<F: ImageFiles>(files: &F, image: Seq<char>, r: crate::error::Result<()>) -> bool {
    exists|name: &str, opened: crate::error::Result<F::Reader>|
        name@ == image && #[trigger] call_ensures(F::open, (files, name), opened) && match opened {
            Err(e) => r == Err::<(), Error>(e),
            Ok(reader) => r is Ok ==> exists|kind: BackendKind| #[trigger] fits_image(kind, reader.bytes()),
        }
}

/// Runs a parsed command: `inspect` prints the filesystem's details, `ls` lists
/// a directory and `cat` copies a file, each to `output`, from the image the
/// command names.
pub fn run<F: ImageFiles, O: BackendOpeners, W: OutputSink>(
    command: Command,
    files: &F,
    openers: &O,
    output: &mut W,
) -> (r: crate::error::Result<()>)
    ensures
        follows_open(files, command_image(command@), r),
        exists|name: &str, opened: crate::error::Result<ReadOnlyBackend<O::Ext, O::Squashfs, O::Xfs>>|
            name@ == command_image(command@) && #[trigger] call_ensures(
                open_filesystem::<F, O>,
                (files, openers, name),
                opened,
            ) && match opened {
                Err(e) => r == Err::<(), Error>(e) && *final(output) == *old(output),
                Ok(backend) => exists|o: &mut W|
                    #![auto]
                    *o == *old(output) && *final(o) == *final(output) && (command is Inspect ==> call_ensures(
                        run_inspect::<ReadOnlyBackend<O::Ext, O::Squashfs, O::Xfs>, W>,
                        (&backend, name, o),
                        r,
                    )) && (command is List ==> call_ensures(
                        run_list::<ReadOnlyBackend<O::Ext, O::Squashfs, O::Xfs>, W>,
                        (&backend, &command->List_path, o),
                        r,
                    )) && (command is Cat ==> call_ensures(
                        stream_file::<ReadOnlyBackend<O::Ext, O::Squashfs, O::Xfs>, W>,
                        (&backend, &command->Cat_path, o),
                        r,
                    )),
            },
{
    let ghost image_name = command_image(command@);
    let (image, rest) = match command {
        Command::Inspect { image } => (image, None),
        Command::List { image, path } => (image, Some((true, path))),
        Command::Cat { image, path } => (image, Some((false, path))),
    };
    let name = image.as_str();
    let opened_filesystem = open_filesystem(files, openers, name);
    let ghost opened_result = opened_filesystem;
    let ghost before = *output;
    let ghost opened = choose|opened: crate::error::Result<F::Reader>|
        #[trigger] call_ensures(F::open, (files, name), opened) && match opened {
            Err(e) => opened_filesystem == Err::<ReadOnlyBackend<O::Ext, O::Squashfs, O::Xfs>, Error>(e),
            Ok(reader) => opened_filesystem matches Ok(backend) ==> fits_image(
                backend.backend_kind(),
                reader.bytes(),
            ),
        };
    let filesystem = match opened_filesystem {
        Ok(filesystem) => filesystem,
        Err(e) => {
            let r = Err(e);
            assert(follows_open(files, image_name, r));
            return r;
        },
    };
    proof {
        if let Ok(reader) = opened {
            assert(fits_image(filesystem.backend_kind(), reader.bytes()));
        }
    }
    let r = match rest {
        None => {
            let r = run_inspect(&filesystem, name, output);
            assert(exists|o: &mut W| *o == before && *final(o) == *output && #[trigger] call_ensures(
                run_inspect::<ReadOnlyBackend<O::Ext, O::Squashfs, O::Xfs>, W>,
                (&filesystem, name, o),
                r,
            ));
            r
        },
        Some((true, path)) => {
            let r = run_list(&filesystem, &path, output);
            assert(exists|o: &mut W| *o == before && *final(o) == *output && #[trigger] call_ensures(
                run_list::<ReadOnlyBackend<O::Ext, O::Squashfs, O::Xfs>, W>,
                (&filesystem, &path, o),
                r,
            ));
            r
        },
        Some((false, path)) => {
            let r = stream_file(&filesystem, &path, output);
            assert(exists|o: &mut W| *o == before && *final(o) == *output && #[trigger] call_ensures(
                stream_file::<ReadOnlyBackend<O::Ext, O::Squashfs, O::Xfs>, W>,
                (&filesystem, &path, o),
                r,
            ));
            r
        },
    };
    assert(follows_open(files, image_name, r));
    r
}

/// Writes `lines` to `output` one after another with [`write_line`], stopping at
/// the first that fails with its error.
pub fn write_lines<W: OutputSink>(output: &mut W, lines: &Vec<String>) -> (r: crate::error::Result<()>)
    ensures
        exists|outs: Seq<W>|
            #![trigger outs[0]]
            {
                &&& 1 <= outs.len() <= lines@.len() + 1
                &&& outs[0] == *old(output)
                &&& forall|i: int|
                    #![trigger lines@[i]]
                    0 <= i < outs.len() - 1 ==> lines@[i]@.len() >= 0 && exists|o: &mut W, s: &str, w: crate::error::Result<()>|
                        s@ == lines@[i]@ && *o == outs[i] && *final(o) == outs[i + 1] && #[trigger] call_ensures(
                            write_line::<W>,
                            (o, s),
                            w,
                        ) && w is Ok
                &&& r is Ok ==> outs.len() == lines@.len() + 1 && *final(output) == outs.last()
                &&& r is Err ==> outs.len() <= lines@.len() && exists|o: &mut W, s: &str, w: crate::error::Result<()>|
                    s@ == lines@[outs.len() - 1]@ && *o == outs.last() && *final(o) == *final(output)
                        && #[trigger] call_ensures(write_line::<W>, (o, s), w) && (w matches Err(e) && r
                        == Err::<(), Error>(e))
            },
{
    let ghost mut outs: Seq<W> = seq![*output];
    let mut i: usize = 0;
    while i < lines.len()
        invariant
            i <= lines@.len(),
            outs.len() == i + 1,
            outs[0] == *old(output),
            outs.last() == *output,
            forall|j: int|
                #![trigger lines@[j]]
                0 <= j < outs.len() - 1 ==> lines@[j]@.len() >= 0 && exists|o: &mut W, s: &str, w: crate::error::Result<()>|
                    s@ == lines@[j]@ && *o == outs[j] && *final(o) == outs[j + 1] && #[trigger] call_ensures(
                        write_line::<W>,
                        (o, s),
                        w,
                    ) && w is Ok,
        decreases lines@.len() - i,
    {
        let ghost before = *output;
        let line = lines[i].as_str();
        let written = write_line(output, line);
        assert(exists|o: &mut W, s: &str|
            s@ == lines@[i as int]@ && *o == before && *final(o) == *output && #[trigger] call_ensures(
                write_line::<W>,
                (o, s),
                written,
            ));
        match written {
            Ok(_) => {},
            Err(e) => {
                assert(outs[0] == *old(output));
                return Err(e);
            },
        }
        proof {
            let old_outs = outs;
            outs = outs.push(*output);
            assert forall|j: int|
                #![trigger lines@[j]]
                0 <= j < outs.len() - 1 implies lines@[j]@.len() >= 0 && exists|o: &mut W, s: &str, w: crate::error::Result<()>|
                    s@ == lines@[j]@ && *o == outs[j] && *final(o) == outs[j + 1] && #[trigger] call_ensures(
                        write_line::<W>,
                        (o, s),
                        w,
                    ) && w is Ok by {
                if j < old_outs.len() - 1 {
                    assert(outs[j] == old_outs[j] && outs[j + 1] == old_outs[j + 1]);
                    assert(old_outs[j + 1] == old_outs[j + 1]);
                } else {
                    assert(outs[j] == before && outs[j + 1] == *output);
                }
            }
        }
        i = i + 1;
    }
    assert(outs[0] == *old(output));
    Ok(())
}

/// The line of an entry in a listing, as [`listing_line`] writes it.
pub open spec fn listing_text(entry: DirectoryEntry) -> Seq<char> {
    (match entry.metadata.kind {
        FileKind::Directory => "dir"@,
        FileKind::Regular => "file"@,
        FileKind::Symlink => "link"@,
        FileKind::Other => "other"@,
    }) + "\t"@ + entry.name@ + "\n"@
}

/// Prints the details of `filesystem` read from `image`, one line per detail:
/// the lines of [`inspect_lines`] for the details that the filesystem gives, or
/// its error with nothing written.
pub fn run_inspect<FS: ReadOnlyFilesystem, W: OutputSink>(filesystem: &FS, image: &str, output: &mut W) -> (r:
    crate::error::Result<()>)
    ensures
        exists|res: crate::error::Result<FilesystemInfo>|
            #[trigger] call_ensures(FS::info, (filesystem,), res) && match res {
                Err(e) => r == Err::<(), Error>(e) && *final(output) == *old(output),
                Ok(info) => exists|o: &mut W, lines: Vec<String>|
                    texts(lines@) == inspect_lines(image@, info) && *o == *old(output) && *final(o)
                        == *final(output) && #[trigger] call_ensures(write_lines::<W>, (o, &lines), r),
            },
{
    let got = filesystem.info();
    let info = match got {
        Ok(info) => info,
        Err(e) => return Err(e),
    };
    let lines = inspect_report(image, &info);
    let ghost before = *output;
    let r = write_lines(output, &lines);
    assert(exists|o: &mut W|
        *o == before && *final(o) == *output && #[trigger] call_ensures(write_lines::<W>, (o, &lines), r));
    r
}

/// Prints one line per entry of the directory `path` of `filesystem`, as
/// [`listing_text`] states, in the order the filesystem lists them, or its error
/// with nothing written.
pub fn run_list<FS: ReadOnlyFilesystem, W: OutputSink>(filesystem: &FS, path: &FsPath, output: &mut W) -> (r:
    crate::error::Result<()>)
    ensures
        exists|res: crate::error::Result<Vec<DirectoryEntry>>|
            #[trigger] call_ensures(FS::read_dir, (filesystem, path), res) && match res {
                Err(e) => r == Err::<(), Error>(e) && *final(output) == *old(output),
                Ok(entries) => exists|o: &mut W, lines: Vec<String>|
                    texts(lines@) == entries@.map_values(|e: DirectoryEntry| listing_text(e)) && *o
                        == *old(output) && *final(o) == *final(output) && #[trigger] call_ensures(
                        write_lines::<W>,
                        (o, &lines),
                        r,
                    ),
            },
{
    let listed = filesystem.read_dir(path);
    let entries = match listed {
        Ok(entries) => entries,
        Err(e) => return Err(e),
    };
    let mut lines: Vec<String> = Vec::new();
    let mut i: usize = 0;
    while i < entries.len()
        invariant
            i <= entries@.len(),
            texts(lines@) == entries@.take(i as int).map_values(|e: DirectoryEntry| listing_text(e)),
        decreases entries@.len() - i,
    {
        let line = listing_line(&entries[i]);
        let ghost before = lines@;
        lines.push(line);
        assert(texts(lines@) =~= texts(before).push(line@));
        assert(entries@.take(i + 1) =~= entries@.take(i as int).push(entries@[i as int]));
        assert(entries@.take(i + 1).map_values(|e: DirectoryEntry| listing_text(e)) =~= entries@.take(
            i as int,
        ).map_values(|e: DirectoryEntry| listing_text(e)).push(listing_text(entries@[i as int])));
        i = i + 1;
    }
    assert(entries@.take(entries@.len() as int) =~= entries@);
    let ghost before = *output;
    let r = write_lines(output, &lines);
    assert(exists|o: &mut W|
        *o == before && *final(o) == *output && #[trigger] call_ensures(write_lines::<W>, (o, &lines), r));
    r
}

} // verus!
