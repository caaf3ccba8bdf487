//! What an instruction handler is: a description of the operation, its
//! operand width, where its operands come from and what it costs.

use vstd::prelude::*;

verus! {

/// The operand width of an instruction.
#[derive(Clone, Copy, Debug, PartialEq, Eq, Structural)]
pub enum Size {
    Byte,
    Word,
    Long,
}

impl Size {
    pub open spec fn spec_bits(self) -> u32 {
        match self {
            Size::Byte => 8,
            Size::Word => 16,
            Size::Long => 32,
        }
    }

    /// The number of bits of an operand.
    #[verifier::when_used_as_spec(spec_bits)]
    pub fn bits(self) -> (r: u32)
        ensures
            r == self.spec_bits(),
    {
        match self {
            Size::Byte => 8,
            Size::Word => 16,
            Size::Long => 32,
        }
    }

    pub open spec fn spec_bytes(self) -> u32 {
        match self {
            Size::Byte => 1,
            Size::Word => 2,
            Size::Long => 4,
        }
    }

    /// The number of bytes of an operand in memory.
    #[verifier::when_used_as_spec(spec_bytes)]
    pub fn bytes(self) -> (r: u32)
        ensures
            r == self.spec_bytes(),
    {
        match self {
            Size::Byte => 1,
            Size::Word => 2,
            Size::Long => 4,
        }
    }

    pub open spec fn spec_mask(self) -> u32 {
        match self {
            Size::Byte => 0xff,
            Size::Word => 0xffff,
            Size::Long => 0xffff_ffff,
        }
    }

    /// The bits an operand occupies.
    #[verifier::when_used_as_spec(spec_mask)]
    pub fn mask(self) -> (r: u32)
        ensures
            r == self.spec_mask(),
    {
        match self {
            Size::Byte => 0xff,
            Size::Word => 0xffff,
            Size::Long => 0xffff_ffff,
        }
    }

    pub open spec fn spec_msb(self) -> u32 {
        match self {
            Size::Byte => 0x80,
            Size::Word => 0x8000,
            Size::Long => 0x8000_0000,
        }
    }

    /// The sign bit of an operand.
    #[verifier::when_used_as_spec(spec_msb)]
    pub fn msb(self) -> (r: u32)
        ensures
            r == self.spec_msb(),
    {
        match self {
            Size::Byte => 0x80,
            Size::Word => 0x8000,
            Size::Long => 0x8000_0000,
        }
    }
}

/// The addressing modes that name a place in memory. `x` and `y` are the
/// register fields in bits 9..11 and 0..2 of the instruction word.
#[derive(Clone, Copy, Debug, PartialEq, Eq, Structural)]
pub enum EaMode {
    /// (Ay)
    AyAi,
    /// (Ay)+
    AyPi,
    /// -(Ay)
    AyPd,
    /// d16(Ay)
    AyDi,
    /// d8(Ay,Xn)
    AyIx,
    /// (Ax)+
    AxPi,
    /// -(Ax)
    AxPd,
    /// A sign-extended 16-bit address.
    Aw,
    /// A 32-bit address.
    Al,
    /// d16(PC)
    PcDi,
    /// d8(PC,Xn)
    PcIx,
}

/// Where an instruction finds an operand.
#[derive(Clone, Copy, Debug, PartialEq, Eq, Structural)]
pub enum Operand {
    /// Data register x.
    Dx,
    /// Data register y.
    Dy,
    /// Address register x.
    Ax,
    /// Address register y.
    Ay,
    /// The extension words that follow the instruction word.
    Imm,
    /// The three-bit count in the x field, where 0 stands for 8.
    Quick,
    /// Memory, at the address the mode yields.
    Mem(EaMode),
}

/// The two-operand operations that write their result to the destination.
#[derive(Clone, Copy, Debug, PartialEq, Eq, Structural)]
pub enum AluOp {
    Abcd,
    Add,
    Addx,
    And,
    Eor,
    Or,
    Sbcd,
    Sub,
    Subx,
}

/// The logical operations on the status register.
#[derive(Clone, Copy, Debug, PartialEq, Eq, Structural)]
pub enum LogicOp {
    And,
    Eor,
    Or,
}

/// The operations on an address register.
#[derive(Clone, Copy, Debug, PartialEq, Eq, Structural)]
pub enum AddressOp {
    Add,
    Subtract,
    Compare,
}

/// The shift and rotate operations.
#[derive(Clone, Copy, Debug, PartialEq, Eq, Structural)]
pub enum ShiftOp {
    Asl,
    Asr,
    Lsl,
    Lsr,
    Rol,
    Ror,
    Roxl,
    Roxr,
}

/// The single-bit operations.
#[derive(Clone, Copy, Debug, PartialEq, Eq, Structural)]
pub enum BitOp {
    Bchg,
    Bclr,
    Bset,
    Btst,
}

/// The sixteen conditions of Bcc and DBcc.
#[derive(Clone, Copy, Debug, PartialEq, Eq, Structural)]
pub enum Condition {
    T,
    F,
    Hi,
    Ls,
    Cc,
    Cs,
    Ne,
    Eq,
    Vc,
    Vs,
    Pl,
    Mi,
    Ge,
    Lt,
    Gt,
    Le,
}

/// An instruction handler. The dispatch table holds one for each of the
/// 65 536 instruction words.
#[derive(Clone, Copy, Debug, PartialEq, Eq, Structural)]
#[allow(inconsistent_fields)]
pub enum Handler {
    /// No instruction claims the word.
    Illegal,
    /// The ILLEGAL instruction itself.
    RealIllegal,
    SetD0,
    SetD1,
    SetDx,
    /// `dst <- dst op src`.
    Alu { op: AluOp, size: Size, src: Operand, dst: Operand, cycles: u16 },
    /// Sets the flags from `dst - src` and stores nothing.
    Compare { size: Size, src: Operand, dst: Operand, cycles: u16 },
    /// ADDA, SUBA and CMPA: the source is sign-extended to a long and the
    /// whole of Ax takes part.
    AddressArith { op: AddressOp, size: Size, src: Operand, cycles: u16 },
    Addq16An,
    Addq32An,
    Subq16An,
    Subq32An,
    Andi16Toc,
    Andi16Tos,
    Eori16Toc,
    Eori16Tos,
    Ori16Toc,
    Ori16Tos,
    /// Shifts Dy by the count `count` yields, taken modulo 64.
    Shift { op: ShiftOp, size: Size, count: Operand, cycles: u16 },
    /// Shifts a word in memory by one.
    ShiftMemory { op: ShiftOp, dst: EaMode, cycles: u16 },
    /// Bcc. The displacement is the low byte of the instruction word,
    /// or an extension word where that byte is zero.
    Branch { cond: Condition },
    Bra,
    Bsr,
    Dbcc { cond: Condition },
    /// A bit operation on a byte in memory; the bit number is taken
    /// modulo 8.
    BitMemory { op: BitOp, src: Operand, dst: EaMode, cycles: u16 },
    Bchg32RDn,
    Bchg32SDn,
    Bclr32RDn,
    Bclr32SDn,
    Bset32RDn,
    Bset32SDn,
    Btst32RDn,
    Btst32SDn,
    Chk { src: Operand, cycles: u16 },
    ClrMemory { size: Size, dst: EaMode, cycles: u16 },
    Clr8Dn,
    Clr16Dn,
    Clr32Dn,
    Div { signed: bool, src: Operand, cycles: u16 },
    Exg32Dd,
    Exg32Aa,
    Exg32Da,
    ExtBw,
    ExtWl,
    /// MULS where `signed` is set, MULU where it is not.
    Mul { signed: bool, src: Operand, cycles: u16 },
    Not { size: Size, dst: Operand, cycles: u16 },
    Nbcd { dst: Operand, cycles: u16 },
    Moveq,
    /// JMP, and JSR where `push` is set.
    Jump { dst: EaMode, push: bool, cycles: u16 },
    Swap32Dn,
    /// TRAP #n, with n in the low four bits of the instruction word.
    Trap,
    Trapv,
    Rts,
}

/// The dispatch table: one handler for every instruction word.
pub struct InstructionSet {
    table: Vec<Handler>,
}

impl View for InstructionSet {
    type V = Seq<Handler>;

    closed spec fn view(&self) -> Seq<Handler> {
        self.table@
    }
}

impl InstructionSet {
    #[verifier::type_invariant]
    spec fn populated(&self) -> bool {
        self.table@.len() == 0x10000
    }

    /// A table that holds `handler` in every slot.
    pub fn filled(handler: Handler) -> (r: InstructionSet)
        ensures
            r@ == Seq::new(0x10000, |i: int| handler),
    {
        let mut table: Vec<Handler> = Vec::with_capacity(0x10000);
        let mut i: usize = 0;
        while i < 0x10000
            invariant
                i <= 0x10000,
                table@.len() == i,
                forall|j: int| 0 <= j < i ==> table@[j] == handler,
            decreases 0x10000 - i,
        {
            table.push(handler);
            i += 1;
        }
        assert(table@ =~= Seq::new(0x10000, |i: int| handler));
        InstructionSet { table }
    }

    /// The handler of `opcode`.
    pub fn lookup(&self, opcode: u16) -> (h: Handler)
        ensures
            self@.len() == 0x10000,
            h == self@[opcode as int],
    {
        proof {
            use_type_invariant(self);
        }
        self.table[opcode as usize]
    }

    /// This table with `handler` installed for `opcode`.
    pub fn install(self, opcode: u16, handler: Handler) -> (r: InstructionSet)
        ensures
            r@ == self@.update(opcode as int, handler),
    {
        proof {
            use_type_invariant(&self);
        }
        let mut table = self.table;
        table.set(opcode as usize, handler);
        InstructionSet { table }
    }

    /// A copy of this table.
    pub fn duplicate(&self) -> (r: InstructionSet)
        ensures
            r@ == self@,
    {
        proof {
            use_type_invariant(self);
        }
        let mut table: Vec<Handler> = Vec::with_capacity(0x10000);
        let mut i: usize = 0;
        while i < 0x10000
            invariant
                i <= 0x10000,
                self.table@.len() == 0x10000,
                table@.len() == i,
                forall|j: int| 0 <= j < i ==> table@[j] == self.table@[j],
            decreases 0x10000 - i,
        {
            table.push(self.table[i]);
            i += 1;
        }
        assert(table@ =~= self.table@);
        InstructionSet { table }
    }
}

/// What an instruction declares to the dispatch table: the bits of the
/// instruction word that `mask` selects must equal `matching`.
#[derive(Clone, Copy, Debug, PartialEq, Eq, Structural)]
pub struct OpcodeEntry {
    pub mask: u32,
    pub matching: u32,
    pub handler: Handler,
}

/// Two entries that claim one instruction word.
#[derive(Clone, Copy, Debug, PartialEq, Eq, Structural)]
pub struct Conflict {
    pub opcode: u16,
    /// The index of the first entry that claims `opcode`.
    pub first: usize,
    /// The index of the next entry that claims it.
    pub second: usize,
}

/// Whether `entry` claims `opcode`.
pub open spec fn claims(entry: OpcodeEntry, opcode: u16) -> bool {
    (opcode as u32) & entry.mask == entry.matching
}

/// The index of the first entry at or after `from` that claims `opcode`,
/// or the number of entries where none does.
pub open spec fn next_claim(entries: Seq<OpcodeEntry>, opcode: u16, from: int) -> int
    decreases entries.len() - from,
{
    if from < 0 || from >= entries.len() {
        entries.len() as int
    } else if claims(entries[from], opcode) {
        from
    } else {
        next_claim(entries, opcode, from + 1)
    }
}

/// Whether two entries claim `opcode`.
pub open spec fn contested(entries: Seq<OpcodeEntry>, opcode: u16) -> bool {
    let first = next_claim(entries, opcode, 0);
    first < entries.len() && next_claim(entries, opcode, first + 1) < entries.len()
}

/// Whether no instruction word is claimed twice.
pub open spec fn conflict_free(entries: Seq<OpcodeEntry>) -> bool {
    forall|opcode: u16| !contested(entries, opcode)
}

/// The handler of `opcode`: that of the first entry that claims it, or
/// `Illegal` where none does.
pub open spec fn decoded(entries: Seq<OpcodeEntry>, opcode: u16) -> Handler {
    let first = next_claim(entries, opcode, 0);
    if first < entries.len() {
        entries[first].handler
    } else {
        Handler::Illegal
    }
}

/// The dispatch table that the entries make.
pub open spec fn assembled(entries: Seq<OpcodeEntry>) -> Seq<Handler> {
    Seq::new(0x10000, |opcode: int| decoded(entries, opcode as u16))
}

/// `next_claim` finds a claimant, passes over none, and stays within
/// bounds.
pub proof fn lemma_next_claim(entries: Seq<OpcodeEntry>, opcode: u16, from: int)
    requires
        0 <= from <= entries.len(),
    ensures
        from <= next_claim(entries, opcode, from) <= entries.len(),
        next_claim(entries, opcode, from) < entries.len() ==> claims(
            entries[next_claim(entries, opcode, from)],
            opcode,
        ),
        forall|i: int|
            from <= i < next_claim(entries, opcode, from) ==> !claims(#[trigger] entries[i], opcode),
    decreases entries.len() - from,
{
    if from < entries.len() && !claims(entries[from], opcode) {
        lemma_next_claim(entries, opcode, from + 1);
    }
}

/// In a table without conflicts, an entry that claims an instruction
/// word is the one whose handler the word gets.
pub proof fn lemma_claim_decides(entries: Seq<OpcodeEntry>, opcode: u16, i: int)
    requires
        conflict_free(entries),
        0 <= i < entries.len(),
        claims(entries[i], opcode),
    ensures
        decoded(entries, opcode) == entries[i].handler,
{
    let first = next_claim(entries, opcode, 0);
    lemma_next_claim(entries, opcode, 0);
    assert(first <= i);
    if first < i {
        lemma_next_claim(entries, opcode, first + 1);
        assert(!contested(entries, opcode));
    }
}

/// An instruction word that no entry claims is illegal.
pub proof fn lemma_unclaimed_is_illegal(entries: Seq<OpcodeEntry>, opcode: u16)
    requires
        forall|i: int| 0 <= i < entries.len() ==> !claims(#[trigger] entries[i], opcode),
    ensures
        decoded(entries, opcode) == Handler::Illegal,
{
    lemma_next_claim(entries, opcode, 0);
}

/// The table that a list of entries makes has a handler for every
/// instruction word, whatever the entries are.
pub proof fn lemma_assembly_is_total(entries: Seq<OpcodeEntry>, opcode: u16)
    ensures
        assembled(entries).len() == 0x10000,
        assembled(entries)[opcode as int] == decoded(entries, opcode),
{
}

/// Whether `owner` names the template of `entry` for every instruction
/// word that the entry claims.
pub open spec fn owned(entry: OpcodeEntry, owner: spec_fn(u16) -> u32) -> bool {
    forall|opcode: u16| claims(entry, opcode) ==> #[trigger] owner(opcode) == entry.matching
}

/// Whether the entries are in ascending order of their templates, which
/// lie from `lo` to `hi`, and `owner` names the template of each for
/// every instruction word that it claims.
#[verifier::opaque]
pub open spec fn sound(
    entries: Seq<OpcodeEntry>,
    owner: spec_fn(u16) -> u32,
    lo: int,
    hi: int,
) -> bool {
    &&& forall|i: int, j: int|
        0 <= i < j < entries.len() ==> (#[trigger] entries[i]).matching < (
        #[trigger] entries[j]).matching
    &&& forall|i: int|
        0 <= i < entries.len() ==> lo <= (#[trigger] entries[i]).matching <= hi && owned(
            entries[i],
            owner,
        )
}

/// No entries are sound.
pub proof fn lemma_sound_empty(owner: spec_fn(u16) -> u32, lo: int, hi: int)
    ensures
        sound(Seq::<OpcodeEntry>::empty(), owner, lo, hi),
{
    reveal(sound);
}

/// Sound entries stay sound with one more above them.
pub proof fn lemma_sound_push(
    entries: Seq<OpcodeEntry>,
    entry: OpcodeEntry,
    owner: spec_fn(u16) -> u32,
    lo: int,
    hi: int,
)
    requires
        sound(entries, owner, lo, hi),
        lo <= entry.matching,
        hi < entry.matching,
        owned(entry, owner),
    ensures
        sound(entries.push(entry), owner, lo, entry.matching as int),
{
    reveal(sound);
}

/// Sound entries stay sound with sound entries above them.
pub proof fn lemma_sound_add(
    below: Seq<OpcodeEntry>,
    above: Seq<OpcodeEntry>,
    owner: spec_fn(u16) -> u32,
    lo: int,
    mid: int,
    hi: int,
)
    requires
        sound(below, owner, lo, mid),
        sound(above, owner, mid + 1, hi),
        lo <= mid + 1,
        mid <= hi,
    ensures
        sound(below.add(above), owner, lo, hi),
{
    reveal(sound);
    let both = below.add(above);
    assert forall|i: int, j: int| 0 <= i < j < both.len() implies (#[trigger] both[i]).matching < (
    #[trigger] both[j]).matching by {
        if i < below.len() && j >= below.len() {
            assert(both[i] == below[i]);
            assert(both[j] == above[j - below.len()]);
        } else if j < below.len() {
            assert(both[i] == below[i]);
            assert(both[j] == below[j]);
        } else {
            assert(both[i] == above[i - below.len()]);
            assert(both[j] == above[j - below.len()]);
        }
    }
    assert forall|i: int| 0 <= i < both.len() implies lo <= (#[trigger] both[i]).matching <= hi
        && owned(both[i], owner) by {
        if i < below.len() {
            assert(both[i] == below[i]);
        } else {
            assert(both[i] == above[i - below.len()]);
        }
    }
}

/// Sound entries are sound within wider bounds.
pub proof fn lemma_sound_within(
    entries: Seq<OpcodeEntry>,
    owner: spec_fn(u16) -> u32,
    lo: int,
    hi: int,
    lower: int,
    higher: int,
)
    requires
        sound(entries, owner, lo, hi),
        lower <= lo,
        hi <= higher,
    ensures
        sound(entries, owner, lower, higher),
{
    reveal(sound);
}

/// Among sound entries no instruction word is claimed twice: two
/// entries that claim one word have one template, and no two entries
/// have.
pub proof fn lemma_sound_is_conflict_free(
    entries: Seq<OpcodeEntry>,
    owner: spec_fn(u16) -> u32,
    lo: int,
    hi: int,
)
    requires
        sound(entries, owner, lo, hi),
    ensures
        conflict_free(entries),
{
    reveal(sound);
    assert forall|opcode: u16| !contested(entries, opcode) by {
        let first = next_claim(entries, opcode, 0);
        lemma_next_claim(entries, opcode, 0);
        if first < entries.len() {
            let second = next_claim(entries, opcode, first + 1);
            lemma_next_claim(entries, opcode, first + 1);
            if second < entries.len() {
                assert(owned(entries[first], owner));
                assert(owned(entries[second], owner));
                assert(owner(opcode) == entries[first].matching);
                assert(owner(opcode) == entries[second].matching);
                assert(entries[first].matching < entries[second].matching);
            }
        }
    }
}

fn claims_it(entry: &OpcodeEntry, opcode: u16) -> (r: bool)
    ensures
        r == claims(*entry, opcode),
{
    (opcode as u32) & entry.mask == entry.matching
}

/// Finds the first entry at or after `from` that claims `opcode`.
pub fn find_claim(entries: &Vec<OpcodeEntry>, opcode: u16, from: usize) -> (r: usize)
    ensures
        r == next_claim(entries@, opcode, from as int),
        r <= entries@.len(),
{
    let mut i: usize = from;
    while i < entries.len()
        invariant
            next_claim(entries@, opcode, i as int) == next_claim(entries@, opcode, from as int),
        decreases entries.len() - i,
    {
        if claims_it(&entries[i], opcode) {
            return i;
        }
        i += 1;
    }
    entries.len()
}

/// Assembles the dispatch table: every instruction word gets the handler
/// of the entry that claims it, and `Illegal` where none does. Two
/// entries that claim one word are a conflict; the one reported is that
/// of the lowest such word.
pub fn assemble(entries: &Vec<OpcodeEntry>) -> (r: Result<InstructionSet, Conflict>)
    ensures
        match r {
            Ok(set) => conflict_free(entries@) && set@ == assembled(entries@),
            Err(c) => {
                &&& contested(entries@, c.opcode)
                &&& c.first == next_claim(entries@, c.opcode, 0)
                &&& c.second == next_claim(entries@, c.opcode, c.first + 1)
                &&& forall|lower: u16| lower < c.opcode ==> !contested(entries@, lower)
            },
        },
{
    let mut table: Vec<Handler> = Vec::with_capacity(0x10000);
    let mut opcode: u32 = 0;
    while opcode < 0x10000
        invariant
            opcode <= 0x10000,
            table@.len() == opcode,
            forall|done: u16| done < opcode ==> !contested(entries@, done),
            forall|done: int|
                0 <= done < opcode ==> table@[done] == decoded(entries@, done as u16),
        decreases 0x10000 - opcode,
    {
        let word: u16 = opcode as u16;
        let first: usize = find_claim(entries, word, 0);
        if first < entries.len() {
            let second: usize = find_claim(entries, word, first + 1);
            if second < entries.len() {
                return Err(Conflict { opcode: word, first: first, second: second });
            }
            table.push(entries[first].handler);
        } else {
            table.push(Handler::Illegal);
        }
        opcode += 1;
    }
    assert(table@ =~= assembled(entries@));
    Ok(InstructionSet { table })
}

} // verus!
