# linuxfs

Read-only access to Linux filesystems (Ext2/3/4, SquashFS, XFS) held in raw
images, partitions and physical disks, with the decisions of a Windows mount
front end. The library in `src/` is verified with Verus; `app/` is the `linuxfs`
command and the file, parser and thread plumbing around it.

- `block`, `partition` (MBR, GPT, CRC-32): bounded block sources and partition
  table discovery that fails closed.
- `filesystem`, `backends`, `xfs`: normalized filesystem paths, the read-only
  filesystem interface, the choice of backend by magic bytes, and the XFS
  backend's limits and reads from memory.
- `physical`, `windows`: cached aligned reads of physical disks, drive scans and
  their diagnostics.
- `app`, `providers`, `winfsp`: the source model and controller, image and drive
  source providers, the read-only operation policy and the mount lifecycle.
- `cli`, `config`, `localization`, `locale_file`, `preview`, `runtime`: command
  parsing and output, configuration rules, interface text in twelve languages
  and its TOML override files, window state, and the WinFsp diagnostic record.
