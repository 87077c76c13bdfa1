# kernel

A small AArch64 kernel booted by Limine, with its logic written in Verus.

- `src/` is the verified library:
  - `memory/paging.rs`: identity mapping of the boot memory map with the
    `aarch64-paging` crate (one page table per entry; usable RAM as normal
    memory, everything else as device memory);
  - `memory/init_arm64.rs`: the `MAIR_EL1` value;
  - `pci.rs`: configuration-space addresses and the slot-by-slot bus scan,
    as a state machine that asks for reads and reports devices;
  - `uart.rs`: PL011/16550 register programming and a transmitter that polls
    the status register before each byte;
  - `devicetree.rs`: the reserved-memory entries of a device tree blob (`dtb`);
  - `hw.rs`, `boot.rs`: register addresses and boot messages.
- `app/` is the kernel binary: Limine requests, the heap, the framebuffer
  terminal (`flanterm`), and the loops that perform the register and memory
  accesses that the library's state machines ask for.
- `tests/` exercises the library, including the page tables it builds.
