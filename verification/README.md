# vfrust

Management of macOS virtual machines: their configuration, their life cycle,
their devices and the command line that asks for them.

`src/` is a library that decides and interprets. It parses bootloader and device
specifications, builds and checks configurations, follows a machine through its
states, attributes worker processes to machines, counts packets and bytes, and
says step by step which system call or framework call comes next. Every function
in it carries a contract that Verus proves, and the properties that span several
functions stand next to them as public proof functions whose names start with
`law_`.

`app/` performs the calls: files, sockets, threads, `vmnet.framework`, IOKit and
Apple's Virtualization framework. What needs macOS stands in `app/vz/`.

`tests/` runs the library on concrete values.

Two facts about the standard library are taken on trust: that `String::push`
appends a character (`src/text.rs`), and what `str::from_utf8` accepts and
returns (`src/sys/process_info.rs`).
