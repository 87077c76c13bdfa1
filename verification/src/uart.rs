use vstd::prelude::*;
use vstd::string::StringSliceAdditionalSpecFns;
use vstd::utf8::encode_utf8;

verus! {

/// The architectures the UART driver knows.
#[derive(Clone, Copy, PartialEq, Eq, Structural, Debug)]
pub enum Arch {
    X86_64,
    Aarch64,
    Riscv64,
}

/// The UART base address of each architecture's usual machine: the COM1 port
/// on x86_64, the PL011 of QEMU's `virt` machine on AArch64 and its NS16550A
/// on RISC-V.
pub open spec fn default_base_spec(arch: Arch) -> usize {
    match arch {
        Arch::X86_64 => 0x3F8,
        Arch::Aarch64 => 0x900_0000,
        Arch::Riscv64 => 0x1000_0000,
    }
}

/// One store to a 32-bit device register.
#[derive(Clone, Copy, PartialEq, Eq, Structural, Debug)]
pub struct RegisterWrite {
    pub address: usize,
    pub value: u32,
}

/// The offsets of the PL011 registers that initialisation programs.
pub open spec fn ibrd_offset() -> int {
    0x24
}

pub open spec fn fbrd_offset() -> int {
    0x28
}

pub open spec fn lcr_offset() -> int {
    0x2C
}

pub open spec fn cr_offset() -> int {
    0x30
}

/// The initialisation sequence for a PL011 at `base`: disable the UART, set
/// the integer and fractional baud divisors to 1 and 40, select 8-bit words
/// with the FIFOs enabled, then enable the UART with its transmitter and
/// receiver.
pub open spec fn init_sequence(base: usize) -> Seq<RegisterWrite> {
    seq![
        RegisterWrite { address: (base + cr_offset()) as usize, value: 0 },
        RegisterWrite { address: (base + ibrd_offset()) as usize, value: 1 },
        RegisterWrite { address: (base + fbrd_offset()) as usize, value: 40 },
        RegisterWrite { address: (base + lcr_offset()) as usize, value: 0x70 },
        RegisterWrite { address: (base + cr_offset()) as usize, value: 0x301 },
    ]
}

/// The line control value that initialisation stores selects 8-bit words,
/// no parity and one stop bit, with the FIFOs enabled; the final control
/// value enables the UART, its transmitter and its receiver; and the UART is
/// disabled before it is configured.
pub proof fn lemma_init_line_settings(base: usize)
    ensures
        init_sequence(base)[0].value & 0x1 == 0,
        (init_sequence(base)[3].value >> 5u32) & 0x3 == 0x3,
        init_sequence(base)[3].value & 0x2 == 0,
        init_sequence(base)[3].value & 0x8 == 0,
        init_sequence(base)[3].value & 0x10 != 0,
        init_sequence(base)[4].value & 0x1 != 0,
        init_sequence(base)[4].value & 0x100 != 0,
        init_sequence(base)[4].value & 0x200 != 0,
        init_sequence(base)[0].address == init_sequence(base)[4].address,
{
    let lcr: u32 = 0x70;
    let cr: u32 = 0x301;
    assert((lcr >> 5u32) & 0x3 == 0x3 && lcr & 0x2 == 0 && lcr & 0x8 == 0 && lcr & 0x10 != 0) by (bit_vector)
        requires
            lcr == 0x70,
    ;
    assert(cr & 0x1 != 0 && cr & 0x100 != 0 && cr & 0x200 != 0) by (bit_vector)
        requires
            cr == 0x301,
    ;
    assert(0u32 & 0x1 == 0) by (bit_vector);
}

/// The width of a status register read.
#[derive(Clone, Copy, PartialEq, Eq, Structural, Debug)]
pub enum RegisterWidth {
    Byte,
    Word,
}

/// The status register that tells whether another byte can be sent: the
/// PL011 flag register (its address computed in 32 bits, as the driver
/// does), or the line status register of a 16550.
pub open spec fn status_address_spec(arch: Arch, base: usize) -> usize {
    match arch {
        Arch::Aarch64 => ((base as u32) + 0x18) as usize,
        _ => (base + 5) as usize,
    }
}

pub open spec fn status_width_spec(arch: Arch) -> RegisterWidth {
    match arch {
        Arch::Aarch64 => RegisterWidth::Word,
        _ => RegisterWidth::Byte,
    }
}

/// Whether a status value allows the next byte to be sent: on the PL011 the
/// transmit-FIFO-full flag (bit 5) is clear; on a 16550 the
/// transmit-holding-register-empty bit (bit 5) is set.
pub open spec fn tx_ready_spec(arch: Arch, status: u32) -> bool {
    match arch {
        Arch::Aarch64 => status & 0x20 == 0,
        _ => (status as u8) & 0x20 != 0,
    }
}

/// On the PL011 the decision to send rests on the transmit-FIFO-full flag
/// (bit 5) alone: two status values that agree on that bit get the same
/// answer, whatever their other flags, and the UART is ready when the flag is
/// clear and busy when it is set. On a 16550 it rests on the
/// transmit-holding-register-empty bit (bit 5 of the low byte) alone, ready
/// when it is set and busy when it is clear.
pub proof fn lemma_tx_ready_reads_bit_5(s: u32, t: u32)
    ensures
        s & 0x20 == t & 0x20 ==> tx_ready_spec(Arch::Aarch64, s) == tx_ready_spec(Arch::Aarch64, t),
        tx_ready_spec(Arch::Aarch64, 0),
        !tx_ready_spec(Arch::Aarch64, 0x20),
        (s as u8) & 0x20 == (t as u8) & 0x20 ==> tx_ready_spec(Arch::X86_64, s) == tx_ready_spec(
            Arch::X86_64,
            t,
        ),
        tx_ready_spec(Arch::X86_64, 0x20),
        !tx_ready_spec(Arch::X86_64, 0),
{
    assert(0u32 & 0x20 == 0 && 0x20u32 & 0x20 != 0) by (bit_vector);
    assert((0x20u32 as u8) & 0x20 != 0 && (0u32 as u8) & 0x20 == 0) by (bit_vector);
}

/// Every store of the initialisation lies at the UART's own registers:
/// the sequence for a base `b + k` is the one for `b` with every address
/// moved up by `k` and the same values, and the addresses are `b` plus the
/// offsets of CR, IBRD, FBRD, LCR_H and CR again.
pub proof fn lemma_init_follows_base(b: usize, k: usize)
    requires
        b + k + 0x30 <= usize::MAX,
    ensures
        init_sequence(b).len() == 5,
        init_sequence((b + k) as usize).len() == 5,
        forall|i: int|
            0 <= i < 5 ==> {
                &&& #[trigger] init_sequence((b + k) as usize)[i].address == init_sequence(b)[i].address + k
                &&& init_sequence((b + k) as usize)[i].value == init_sequence(b)[i].value
            },
        init_sequence(b)[0].address == b + 0x30,
        init_sequence(b)[1].address == b + 0x24,
        init_sequence(b)[2].address == b + 0x28,
        init_sequence(b)[3].address == b + 0x2C,
        init_sequence(b)[4].address == b + 0x30,
{
}

/// A UART at a fixed base address.
pub struct UART {
    base: usize,
}

impl UART {
    pub closed spec fn base(&self) -> usize {
        self.base
    }

    pub fn new(base: usize) -> (r: Self)
        ensures
            r.base() == base,
    {
        UART { base }
    }

    /// The base address of the UART's registers.
    pub fn base_address(&self) -> (r: usize)
        ensures
            r == self.base(),
    {
        self.base
    }

    /// The UART at the usual base address of `arch`.
    pub fn default_for(arch: Arch) -> (r: Self)
        ensures
            r.base() == default_base_spec(arch),
    {
        match arch {
            Arch::X86_64 => Self::new(0x3F8),
            Arch::Aarch64 => Self::new(0x900_0000),
            Arch::Riscv64 => Self::new(0x1000_0000),
        }
    }

    /// The address of the register at `offset`.
    fn register_address(&self, offset: usize) -> (r: usize)
        requires
            self.base() + offset <= usize::MAX,
        ensures
            r == self.base() + offset,
    {
        self.base + offset
    }

    /// The register stores that initialise the UART, in order. The driver
    /// has no initialisation for x86_64.
    pub fn init(&self, arch: Arch) -> (r: Vec<RegisterWrite>)
        requires
            arch != Arch::X86_64,
            self.base() + 0x30 <= usize::MAX,
        ensures
            r@ == init_sequence(self.base()),
    {
        let irbd_offset: usize = 0x24;
        let fbrd_offset: usize = 0x28;
        let lcr_offset: usize = 0x2C;
        let cr_offset: usize = 0x30;
        let line_control: u32 = (1u32 << 4u32) | (1u32 << 5u32) | (1u32 << 6u32);
        let control: u32 = (1u32 << 0u32) | (1u32 << 8u32) | (1u32 << 9u32);
        assert(line_control == 0x70) by (bit_vector)
            requires
                line_control == (1u32 << 4u32) | (1u32 << 5u32) | (1u32 << 6u32),
        ;
        assert(control == 0x301) by (bit_vector)
            requires
                control == (1u32 << 0u32) | (1u32 << 8u32) | (1u32 << 9u32),
        ;
        let mut writes: Vec<RegisterWrite> = Vec::new();
        writes.push(RegisterWrite { address: self.register_address(cr_offset), value: 0x0 });
        writes.push(RegisterWrite { address: self.register_address(irbd_offset), value: 1 });
        writes.push(RegisterWrite { address: self.register_address(fbrd_offset), value: 40 });
        writes.push(RegisterWrite { address: self.register_address(lcr_offset), value: line_control });
        writes.push(RegisterWrite { address: self.register_address(cr_offset), value: control });
        assert(writes@ =~= init_sequence(self.base()));
        writes
    }

    /// Starts sending the bytes of `s`, one by one, each after the status
    /// register shows that the UART can take it. On RISC-V the driver sends
    /// nothing.
    pub fn write_string(&self, arch: Arch, s: &str) -> (r: Transmitter)
        requires
            arch == Arch::Aarch64 ==> (self.base() as u32) + 0x18 <= u32::MAX,
            arch == Arch::X86_64 ==> self.base() + 5 <= usize::MAX,
        ensures
            r.wf(),
            r.arch() == arch,
            r.base() == self.base(),
            r.data() == (if arch == Arch::Riscv64 {
                Seq::<u8>::empty()
            } else {
                s.spec_bytes()
            }),
            r.sent() == 0,
            !r.cleared(),
    {
        let bytes = s.as_bytes();
        // A slice's length is a `usize`.
        assert(bytes@.len() == bytes.len());
        let data = match arch {
            Arch::Riscv64 => Vec::new(),
            _ => vstd::slice::slice_to_vec(bytes),
        };
        Transmitter { arch, base: self.base, data, sent: 0, cleared: false }
    }
}

/// What the transmitter asks of its driver next.
#[derive(Clone, Copy, PartialEq, Eq, Structural, Debug)]
pub enum TxAction {
    /// Read the status register at `address` and hand the value back.
    ReadStatus { address: usize, width: RegisterWidth },
    /// Store `byte` in the data register at `address`.
    WriteData { address: usize, byte: u8 },
    /// Every byte has been sent.
    Done,
}

/// Sends a string through a UART, byte after byte, polling the status
/// register before each byte.
pub struct Transmitter {
    arch: Arch,
    base: usize,
    data: Vec<u8>,
    sent: usize,
    cleared: bool,
}

impl Transmitter {
    pub closed spec fn arch(&self) -> Arch {
        self.arch
    }

    pub closed spec fn base(&self) -> usize {
        self.base
    }

    /// The bytes to send.
    pub closed spec fn data(&self) -> Seq<u8> {
        self.data@
    }

    /// How many bytes have been sent.
    pub closed spec fn sent(&self) -> nat {
        self.sent as nat
    }

    /// Whether the last status read allowed the next byte to be sent.
    pub closed spec fn cleared(&self) -> bool {
        self.cleared
    }

    pub open spec fn wf(&self) -> bool {
        &&& self.sent() <= self.data().len()
        &&& self.data().len() <= usize::MAX
        &&& self.arch() == Arch::Aarch64 ==> (self.base() as u32) + 0x18 <= u32::MAX
        &&& self.arch() == Arch::X86_64 ==> self.base() + 5 <= usize::MAX
        &&& self.arch() == Arch::Riscv64 ==> self.data().len() == 0
    }

    pub open spec fn spec_action(&self) -> TxAction {
        if self.sent() >= self.data().len() {
            TxAction::Done
        } else if self.cleared() {
            TxAction::WriteData { address: self.base(), byte: self.data()[self.sent() as int] }
        } else {
            TxAction::ReadStatus {
                address: status_address_spec(self.arch(), self.base()),
                width: status_width_spec(self.arch()),
            }
        }
    }

    /// What the transmitter asks for next.
    pub fn action(&self) -> (r: TxAction)
        requires
            self.wf(),
        ensures
            r == self.spec_action(),
    {
        if self.sent >= self.data.len() {
            TxAction::Done
        } else if self.cleared {
            TxAction::WriteData { address: self.base, byte: self.data[self.sent] }
        } else {
            match self.arch {
                Arch::Aarch64 => TxAction::ReadStatus {
                    address: ((self.base as u32) + 0x18) as usize,
                    width: RegisterWidth::Word,
                },
                _ => TxAction::ReadStatus { address: self.base + 5, width: RegisterWidth::Byte },
            }
        }
    }

    /// Whether a status value allows the next byte to be sent.
    pub fn tx_ready(&self, status: u32) -> (r: bool)
        ensures
            r == tx_ready_spec(self.arch(), status),
    {
        match self.arch {
            Arch::Aarch64 => {
                let txff: u32 = 1u32 << 5u32;
                assert(txff == 0x20) by (bit_vector)
                    requires
                        txff == 1u32 << 5u32,
                ;
                status & txff == 0
            },
            _ => (status as u8) & 0x20 != 0,
        }
    }

    /// Takes the value of the status register that the last `ReadStatus`
    /// action asked for: the next byte may go out when it shows the UART
    /// ready, and the status is polled again otherwise.
    pub fn on_status(&mut self, status: u32)
        requires
            old(self).wf(),
            old(self).spec_action() is ReadStatus,
        ensures
            final(self).wf(),
            final(self).arch() == old(self).arch(),
            final(self).base() == old(self).base(),
            final(self).data() == old(self).data(),
            final(self).sent() == old(self).sent(),
            final(self).cleared() == tx_ready_spec(old(self).arch(), status),
            *final(self) == old(self).spec_after_status(status),
    {
        self.cleared = self.tx_ready(status);
    }

    /// Notes that the byte that the last `WriteData` action asked for was
    /// stored; the status is polled again before the next one.
    pub fn on_written(&mut self)
        requires
            old(self).wf(),
            old(self).spec_action() is WriteData,
        ensures
            final(self).wf(),
            final(self).arch() == old(self).arch(),
            final(self).base() == old(self).base(),
            final(self).data() == old(self).data(),
            final(self).sent() == old(self).sent() + 1,
            !final(self).cleared(),
            *final(self) == old(self).spec_after_written(),
    {
        let len = self.data.len();
        assert(self.sent < len);
        self.sent = self.sent + 1;
        self.cleared = false;
    }
}

impl Transmitter {
    /// The transmitter after the status value `status` was handed back.
    pub closed spec fn spec_after_status(self, status: u32) -> Transmitter {
        Transmitter { cleared: tx_ready_spec(self.arch, status), ..self }
    }

    /// The transmitter after the pending byte was stored.
    pub closed spec fn spec_after_written(self) -> Transmitter {
        Transmitter { sent: (self.sent + 1) as usize, cleared: false, ..self }
    }

    /// The transmitter after `sent` bytes went out, polling again.
    pub closed spec fn with_sent(self, sent: nat) -> Transmitter {
        Transmitter { sent: sent as usize, cleared: false, ..self }
    }

    /// One step against a status register that reads `status` every time.
    pub open spec fn step_with(self, status: u32) -> Transmitter {
        match self.spec_action() {
            TxAction::ReadStatus { .. } => self.spec_after_status(status),
            TxAction::WriteData { .. } => self.spec_after_written(),
            TxAction::Done => self,
        }
    }

    /// `n` steps against a status register that reads `status` every time.
    pub open spec fn steps_with(self, status: u32, n: nat) -> Transmitter
        decreases n,
    {
        if n == 0 {
            self
        } else {
            self.step_with(status).steps_with(status, (n - 1) as nat)
        }
    }
}

proof fn lemma_tx_steps_add(t: Transmitter, status: u32, a: nat, b: nat)
    ensures
        t.steps_with(status, a).steps_with(status, b) == t.steps_with(status, a + b),
    decreases a,
{
    if a > 0 {
        lemma_tx_steps_add(t.step_with(status), status, (a - 1) as nat, b);
    }
}

/// Against a UART that is ready every time it is polled, two steps send one
/// byte: after `2 * k` steps the first `k` bytes are out and the status is
/// polled again.
proof fn lemma_ready_pairs(t: Transmitter, status: u32, k: nat)
    requires
        t.wf(),
        t.sent() == 0,
        !t.cleared(),
        tx_ready_spec(t.arch(), status),
        k <= t.data().len(),
    ensures
        t.steps_with(status, 2 * k) == t.with_sent(k),
    decreases k,
{
    if k == 0 {
        assert(t.with_sent(0) == t);
    } else {
        lemma_ready_pairs(t, status, (k - 1) as nat);
        let u = t.with_sent((k - 1) as nat);
        let u1 = u.step_with(status);
        let u2 = u1.step_with(status);
        assert(u2 == t.with_sent(k));
        assert(u.steps_with(status, 2) == u2) by {
            assert(u1.steps_with(status, 1) == u2.steps_with(status, 0));
        }
        lemma_tx_steps_add(t, status, (2 * (k - 1)) as nat, 2);
    }
}

/// Against a UART that is ready every time it is polled, a fresh transmitter
/// stores the bytes of its string at the data register one after another, in
/// order (the `k`-th byte at its `2 * k + 1`-th step, after a status read),
/// and is done once all are out.
pub proof fn lemma_ready_uart_sends_in_order(t: Transmitter, status: u32)
    requires
        t.wf(),
        t.sent() == 0,
        !t.cleared(),
        tx_ready_spec(t.arch(), status),
    ensures
        forall|k: nat|
            k < t.data().len() ==> (#[trigger] t.steps_with(status, 2 * k + 1)).spec_action() == (
            TxAction::WriteData { address: t.base(), byte: t.data()[k as int] }),
        t.steps_with(status, 2 * t.data().len()).spec_action() == TxAction::Done,
{
    assert forall|k: nat| k < t.data().len() implies (#[trigger] t.steps_with(status, 2 * k + 1)).spec_action()
        == (TxAction::WriteData { address: t.base(), byte: t.data()[k as int] }) by {
        lemma_ready_pairs(t, status, k);
        let u = t.with_sent(k);
        assert(u.steps_with(status, 1) == u.step_with(status).steps_with(status, 0));
        lemma_tx_steps_add(t, status, 2 * k, 1);
    }
    lemma_ready_pairs(t, status, t.data().len());
}

impl Transmitter {
    /// The transmitter after one step per value of `statuses`, the `i`-th
    /// step taking `statuses[i]` when it reads the status register.
    pub open spec fn run(self, statuses: Seq<u32>) -> Transmitter
        decreases statuses.len(),
    {
        if statuses.len() == 0 {
            self
        } else {
            self.step_with(statuses[0]).run(statuses.drop_first())
        }
    }

    /// The actions asked for along that run, in order.
    pub open spec fn trace(self, statuses: Seq<u32>) -> Seq<TxAction>
        decreases statuses.len(),
    {
        if statuses.len() == 0 {
            Seq::empty()
        } else {
            seq![self.spec_action()] + self.step_with(statuses[0]).trace(statuses.drop_first())
        }
    }

    /// The bytes stored along that run, in order.
    pub open spec fn written(self, statuses: Seq<u32>) -> Seq<u8>
        decreases statuses.len(),
    {
        if statuses.len() == 0 {
            Seq::empty()
        } else {
            let rest = self.step_with(statuses[0]).written(statuses.drop_first());
            match self.spec_action() {
                TxAction::WriteData { byte, .. } => seq![byte] + rest,
                _ => rest,
            }
        }
    }
}

/// No action of a trace is `Done`.
pub open spec fn never_done(trace: Seq<TxAction>) -> bool {
    forall|i: int| 0 <= i < trace.len() ==> !(#[trigger] trace[i] is Done)
}

proof fn lemma_tx_step_wf(t: Transmitter, status: u32)
    requires
        t.wf(),
    ensures
        t.step_with(status).wf(),
        t.step_with(status).arch() == t.arch(),
        t.step_with(status).base() == t.base(),
        t.step_with(status).data() == t.data(),
        t.step_with(status).sent() == (if t.spec_action() is WriteData {
            t.sent() + 1
        } else {
            t.sent()
        }),
{
}

/// Whatever the status register reads, the bytes a transmitter stores are
/// the next unsent bytes of its string, in order and each once: along any
/// run, exactly those from where it stood to where it stops.
pub proof fn lemma_sends_in_order(t: Transmitter, statuses: Seq<u32>)
    requires
        t.wf(),
    ensures
        t.run(statuses).wf(),
        t.run(statuses).data() == t.data(),
        t.sent() <= t.run(statuses).sent(),
        t.written(statuses) == t.data().subrange(t.sent() as int, t.run(statuses).sent() as int),
    decreases statuses.len(),
{
    if statuses.len() == 0 {
        assert(t.data().subrange(t.sent() as int, t.sent() as int) =~= Seq::<u8>::empty());
    } else {
        let u = t.step_with(statuses[0]);
        let rest = statuses.drop_first();
        lemma_tx_step_wf(t, statuses[0]);
        lemma_sends_in_order(u, rest);
        if t.spec_action() is WriteData {
            assert(t.data().subrange(t.sent() as int, t.run(statuses).sent() as int) =~= seq![
                t.data()[t.sent() as int],
            ] + t.data().subrange(u.sent() as int, u.run(rest).sent() as int));
        }
    }
}

/// Two transmitters in the same state, one of them with more bytes to send
/// after its own: same arch, base, progress and readiness.
pub open spec fn runs_ahead(t12: Transmitter, t1: Transmitter, more: Seq<u8>) -> bool {
    &&& t12.arch() == t1.arch()
    &&& t12.base() == t1.base()
    &&& t12.data() == t1.data() + more
    &&& t12.sent() == t1.sent()
    &&& t12.cleared() == t1.cleared()
}

/// A transmitter that has sent the bytes `before` and is then in the state of
/// `t2`.
pub open spec fn continues_as(t12: Transmitter, before: Seq<u8>, t2: Transmitter) -> bool {
    &&& t12.arch() == t2.arch()
    &&& t12.base() == t2.base()
    &&& t12.data() == before + t2.data()
    &&& t12.sent() == before.len() + t2.sent()
    &&& t12.cleared() == t2.cleared()
}

proof fn lemma_continues_trace(t12: Transmitter, before: Seq<u8>, t2: Transmitter, statuses: Seq<u32>)
    requires
        t12.wf(),
        t2.wf(),
        continues_as(t12, before, t2),
    ensures
        t12.trace(statuses) == t2.trace(statuses),
    decreases statuses.len(),
{
    if statuses.len() > 0 {
        if t2.sent() < t2.data().len() && t2.cleared() {
            assert(t12.data()[t12.sent() as int] == t2.data()[t2.sent() as int]);
        }
        assert(t12.spec_action() == t2.spec_action());
        lemma_tx_step_wf(t12, statuses[0]);
        lemma_tx_step_wf(t2, statuses[0]);
        lemma_continues_trace(t12.step_with(statuses[0]), before, t2.step_with(statuses[0]), statuses.drop_first());
    }
}

proof fn lemma_ahead_trace(
    t12: Transmitter,
    t1: Transmitter,
    t2: Transmitter,
    first: Seq<u32>,
    then: Seq<u32>,
)
    requires
        t12.wf(),
        t1.wf(),
        t2.wf(),
        runs_ahead(t12, t1, t2.data()),
        t2.arch() == t1.arch(),
        t2.base() == t1.base(),
        t2.sent() == 0,
        !t2.cleared(),
        never_done(t1.trace(first)),
        t1.run(first).sent() == t1.data().len(),
        first.len() == 0 ==> !t1.cleared(),
    ensures
        t12.trace(first + then) == t1.trace(first) + t2.trace(then),
    decreases first.len(),
{
    if first.len() == 0 {
        assert(first + then =~= then);
        assert(t1.trace(first) + t2.trace(then) =~= t2.trace(then));
        lemma_continues_trace(t12, t1.data(), t2, then);
    } else {
        let rest = first.drop_first();
        let st = first[0];
        assert(t1.trace(first)[0] == t1.spec_action());
        assert(!(t1.spec_action() is Done));
        if t1.cleared() {
            assert(t12.data()[t12.sent() as int] == t1.data()[t1.sent() as int]);
        }
        assert(t12.spec_action() == t1.spec_action());
        let u12 = t12.step_with(st);
        let u1 = t1.step_with(st);
        lemma_tx_step_wf(t12, st);
        lemma_tx_step_wf(t1, st);
        assert(t1.trace(first) == seq![t1.spec_action()] + u1.trace(rest));
        assert forall|i: int| 0 <= i < u1.trace(rest).len() implies !(#[trigger] u1.trace(rest)[i] is Done) by {
            assert(u1.trace(rest)[i] == t1.trace(first)[i + 1]);
        }
        if rest.len() == 0 {
            assert(u1.run(rest) == u1);
        }
        assert((first + then).drop_first() =~= rest + then);
        assert((first + then)[0] == st);
        lemma_ahead_trace(u12, u1, t2, rest, then);
        assert(t12.trace(first + then) == seq![t12.spec_action()] + u12.trace(rest + then));
        assert(t12.trace(first + then) =~= t1.trace(first) + t2.trace(then));
    }
}

/// Sending a concatenation is sending its two halves one after the other: a
/// fresh transmitter for the bytes of `t1` followed by those of `t2` asks for
/// the same register accesses as `t1` does until it has sent its last byte,
/// and then for the same ones as `t2`, whatever the status register reads.
pub proof fn lemma_concatenation(
    t12: Transmitter,
    t1: Transmitter,
    t2: Transmitter,
    first: Seq<u32>,
    then: Seq<u32>,
)
    requires
        t12.wf(),
        t1.wf(),
        t2.wf(),
        t12.arch() == t1.arch() && t1.arch() == t2.arch(),
        t12.base() == t1.base() && t1.base() == t2.base(),
        t12.data() == t1.data() + t2.data(),
        t12.sent() == 0 && t1.sent() == 0 && t2.sent() == 0,
        !t12.cleared() && !t1.cleared() && !t2.cleared(),
        never_done(t1.trace(first)),
        t1.run(first).sent() == t1.data().len(),
    ensures
        t12.trace(first + then) == t1.trace(first) + t2.trace(then),
{
    lemma_ahead_trace(t12, t1, t2, first, then);
}

/// The UTF-8 bytes of a concatenation are those of its halves, one after the
/// other.
pub proof fn lemma_encode_concat(c1: Seq<char>, c2: Seq<char>)
    ensures
        encode_utf8(c1 + c2) == encode_utf8(c1) + encode_utf8(c2),
    decreases c1.len(),
{
    if c1.len() == 0 {
        assert(c1 + c2 =~= c2);
        assert(encode_utf8(c1) + encode_utf8(c2) =~= encode_utf8(c2));
    } else {
        assert((c1 + c2).drop_first() =~= c1.drop_first() + c2);
        assert((c1 + c2)[0] == c1[0]);
        lemma_encode_concat(c1.drop_first(), c2);
        assert(encode_utf8(c1 + c2) =~= encode_utf8(c1) + encode_utf8(c2));
    }
}

/// Writing the string `ab`, the concatenation of `a` and `b`, through a UART
/// asks for the register accesses of writing `a` and then those of writing
/// `b`: with transmitters as `write_string` makes them for the three strings,
/// whatever the status register reads.
pub proof fn lemma_write_string_concatenation(
    t12: Transmitter,
    t1: Transmitter,
    t2: Transmitter,
    a: &str,
    b: &str,
    ab: &str,
    first: Seq<u32>,
    then: Seq<u32>,
)
    requires
        ab@ == a@ + b@,
        t12.wf(),
        t1.wf(),
        t2.wf(),
        t12.arch() == t1.arch() && t1.arch() == t2.arch(),
        t12.base() == t1.base() && t1.base() == t2.base(),
        t12.sent() == 0 && t1.sent() == 0 && t2.sent() == 0,
        !t12.cleared() && !t1.cleared() && !t2.cleared(),
        t12.data() == (if t12.arch() == Arch::Riscv64 { Seq::<u8>::empty() } else { ab.spec_bytes() }),
        t1.data() == (if t1.arch() == Arch::Riscv64 { Seq::<u8>::empty() } else { a.spec_bytes() }),
        t2.data() == (if t2.arch() == Arch::Riscv64 { Seq::<u8>::empty() } else { b.spec_bytes() }),
        never_done(t1.trace(first)),
        t1.run(first).sent() == t1.data().len(),
    ensures
        t12.trace(first + then) == t1.trace(first) + t2.trace(then),
{
    lemma_encode_concat(a@, b@);
    if t12.arch() == Arch::Riscv64 {
        assert(t1.data() + t2.data() =~= Seq::<u8>::empty());
    }
    lemma_concatenation(t12, t1, t2, first, then);
}

/// A byte goes out only once a status read has shown the UART ready, and the
/// bytes go out in the order of the string: the byte that a `WriteData`
/// action stores is the next unsent one, at the UART's data register.
pub proof fn lemma_write_follows_ready(t: Transmitter)
    requires
        t.wf(),
        t.spec_action() is WriteData,
    ensures
        t.cleared(),
        t.sent() < t.data().len(),
        t.spec_action() == (TxAction::WriteData { address: t.base(), byte: t.data()[t.sent() as int] }),
{
}

} // verus!
