# omnix

A verified model of the OmniX hobby kernel. `src/` holds the kernel's logic as
Verus-verified Rust: the three text consoles (`vga`, `kernel_console`,
`boot_console`) over a shared 80 x 25 cell screen (`screen`), the keyboard and
mouse decoders, the ATA, PCI, RTC and speaker command sequences, the package
parser (`omxapk`), the window switcher (`wm`), the desktop state machine
(`system_ui`) and the memory routines (`mem`). Each routine computes what the
kernel writes to video memory or to I/O ports.

`app/` performs that I/O: it reads and writes the ports, copies screens to
video memory and runs the kernels' loops. `tests/` runs the library on
concrete values.

The network-card search reports the first slot, in bus then slot order, whose
device has Intel's vendor id 0x8086 and an E1000 device id: the 8254x gigabit
controllers (82540 to 82547 in all versions: ids 0x1000, 0x1001, 0x1004,
0x1008, 0x1009, 0x100C to 0x1019, 0x101A, 0x101D, 0x101E, 0x1026 to 0x1028,
0x1075 to 0x107C, 0x108A, 0x1099, 0x10B5), the CE4100 controller (0x2E6E) and
the 82574L (0x10D3). Other Intel devices, such as host bridges, are passed over.
