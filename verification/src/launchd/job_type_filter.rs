use vstd::prelude::*;
use vstd::string::StringExecFns;

verus! {

/// Bit of a service found in a system location.
pub const SYSTEM: u32 = 0x02;

/// Bit of a service found in a location shared by all users.
pub const GLOBAL: u32 = 0x04;

/// Bit of a service found in the user's own location.
pub const USER: u32 = 0x08;

/// Bit of an agent.
pub const AGENT: u32 = 0x10;

/// Bit of a daemon.
pub const DAEMON: u32 = 0x20;

/// Bit of a service that is currently loaded.
pub const LOADED: u32 = 0x40;

/// Every named bit.
pub const ALL: u32 = 0x7e;

/// The named bits in the order in which they are rendered.
pub open spec fn flag_at(i: int) -> u32 {
    if i == 0 {
        SYSTEM
    } else if i == 1 {
        GLOBAL
    } else if i == 2 {
        USER
    } else if i == 3 {
        AGENT
    } else if i == 4 {
        DAEMON
    } else {
        LOADED
    }
}

/// The letter that stands for the named bit at position `i`.
pub open spec fn letter_at(i: int) -> char {
    if i == 0 {
        's'
    } else if i == 1 {
        'g'
    } else if i == 2 {
        'u'
    } else if i == 3 {
        'a'
    } else if i == 4 {
        'd'
    } else {
        'l'
    }
}

/// Position of a letter in the rendering order; 6 for any other character.
pub open spec fn letter_rank(c: char) -> int {
    if c == 's' {
        0
    } else if c == 'g' {
        1
    } else if c == 'u' {
        2
    } else if c == 'a' {
        3
    } else if c == 'd' {
        4
    } else if c == 'l' {
        5
    } else {
        6
    }
}

/// Whether every bit of `flag` is set in `bits`.
pub open spec fn has_bits(bits: u32, flag: u32) -> bool {
    bits & flag == flag
}

/// The letters of the first `n` named bits that are set in `bits`.
pub open spec fn display_upto(bits: u32, n: nat) -> Seq<char>
    decreases n,
{
    if n == 0 {
        Seq::empty()
    } else if has_bits(bits, flag_at(n - 1)) {
        display_upto(bits, (n - 1) as nat).push(letter_at(n - 1))
    } else {
        display_upto(bits, (n - 1) as nat)
    }
}

/// The rendering of a bit pattern: one letter per named bit that is set.
pub open spec fn display_chars(bits: u32) -> Seq<char> {
    display_upto(bits, 6)
}

/// The name of a pattern that is exactly one named bit; empty otherwise.
pub open spec fn label_chars(bits: u32) -> Seq<char> {
    if bits == SYSTEM {
        "SYSTEM"@
    } else if bits == GLOBAL {
        "GLOBAL"@
    } else if bits == USER {
        "USER"@
    } else if bits == AGENT {
        "AGENT"@
    } else if bits == DAEMON {
        "DAEMON"@
    } else if bits == LOADED {
        "LOADED"@
    } else {
        Seq::empty()
    }
}

/// Bitmask for filtering on the job type, which is a mix of scope (where the
/// service is located) and kind (agent or daemon).
///
/// The view of a mask is its raw bit pattern; two masks are equal exactly when
/// their patterns are.
#[derive(Clone, Copy, Debug, PartialEq, Eq, Hash, Structural)]
pub struct JobTypeFilter {
    bits: u32,
}

impl View for JobTypeFilter {
    type V = u32;

    closed spec fn view(&self) -> u32 {
        self.bits
    }
}

impl Default for JobTypeFilter {
    fn default() -> (r: Self)
        ensures
            r@ == 0,
    {
        JobTypeFilter::empty()
    }
}

impl JobTypeFilter {
    /// Only named bits are ever set.
    #[verifier::type_invariant]
    pub closed spec fn wf(self) -> bool {
        self.bits & !ALL == 0
    }

    /// Whether every bit of `other` is set in this mask.
    pub open spec fn has(self, other: Self) -> bool {
        has_bits(self@, other@)
    }

    /// The mask with no bit set.
    pub fn empty() -> (r: Self)
        ensures
            r@ == 0,
    {
        assert(0u32 & !ALL == 0) by (bit_vector);
        JobTypeFilter { bits: 0 }
    }

    /// The mask with every named bit set.
    pub fn all() -> (r: Self)
        ensures
            r@ == ALL,
    {
        assert(ALL & !ALL == 0) by (bit_vector);
        JobTypeFilter { bits: ALL }
    }

    /// The mask of the SYSTEM bit alone.
    pub fn system() -> (r: Self)
        ensures
            r@ == SYSTEM,
    {
        assert(SYSTEM & !ALL == 0) by (bit_vector);
        JobTypeFilter { bits: SYSTEM }
    }

    /// The mask of the GLOBAL bit alone.
    pub fn global() -> (r: Self)
        ensures
            r@ == GLOBAL,
    {
        assert(GLOBAL & !ALL == 0) by (bit_vector);
        JobTypeFilter { bits: GLOBAL }
    }

    /// The mask of the USER bit alone.
    pub fn user() -> (r: Self)
        ensures
            r@ == USER,
    {
        assert(USER & !ALL == 0) by (bit_vector);
        JobTypeFilter { bits: USER }
    }

    /// The mask of the AGENT bit alone.
    pub fn agent() -> (r: Self)
        ensures
            r@ == AGENT,
    {
        assert(AGENT & !ALL == 0) by (bit_vector);
        JobTypeFilter { bits: AGENT }
    }

    /// The mask of the DAEMON bit alone.
    pub fn daemon() -> (r: Self)
        ensures
            r@ == DAEMON,
    {
        assert(DAEMON & !ALL == 0) by (bit_vector);
        JobTypeFilter { bits: DAEMON }
    }

    /// The mask of the LOADED bit alone.
    pub fn loaded() -> (r: Self)
        ensures
            r@ == LOADED,
    {
        assert(LOADED & !ALL == 0) by (bit_vector);
        JobTypeFilter { bits: LOADED }
    }

    /// The baseline filter of the user interface: only services that are
    /// currently loaded.
    pub fn launchk_default() -> (r: Self)
        ensures
            r@ == LOADED,
    {
        let mut jtf = JobTypeFilter::empty();
        jtf.toggle(JobTypeFilter::loaded());
        assert(0u32 ^ LOADED == LOADED) by (bit_vector);
        jtf
    }

    /// The raw bit pattern.
    pub fn bits(&self) -> (r: u32)
        ensures
            r == self@,
            r & !ALL == 0,
    {
        proof {
            use_type_invariant(self);
        }
        self.bits
    }

    /// The mask with the given pattern, if the pattern holds named bits only.
    pub fn from_bits(bits: u32) -> (r: Option<Self>)
        ensures
            r is Some <==> bits & !ALL == 0,
            r is Some ==> r->0@ == bits,
    {
        if bits & !ALL == 0 {
            Some(JobTypeFilter { bits })
        } else {
            None
        }
    }

    /// The mask with the named bits of the given pattern; other bits are dropped.
    pub fn from_bits_truncate(bits: u32) -> (r: Self)
        ensures
            r@ == bits & ALL,
    {
        assert((bits & ALL) & !ALL == 0) by (bit_vector);
        JobTypeFilter { bits: bits & ALL }
    }

    /// Whether no bit is set.
    pub fn is_empty(&self) -> (r: bool)
        ensures
            r == (self@ == 0),
    {
        self.bits == 0
    }

    /// Whether every bit of `other` is set in this mask.
    pub fn contains(&self, other: Self) -> (r: bool)
        ensures
            r == self.has(other),
    {
        self.bits & other.bits == other.bits
    }

    /// Whether some bit is set in both masks.
    pub fn intersects(&self, other: Self) -> (r: bool)
        ensures
            r == (self@ & other@ != 0),
    {
        self.bits & other.bits != 0
    }

    /// The bits set in either mask.
    pub fn union(self, other: Self) -> (r: Self)
        ensures
            r@ == self@ | other@,
    {
        let a = self.bits;
        let b = other.bits;
        proof {
            use_type_invariant(self);
            use_type_invariant(other);
            assert((a | b) & !ALL == 0) by (bit_vector)
                requires
                    a & !ALL == 0,
                    b & !ALL == 0,
            ;
        }
        JobTypeFilter { bits: a | b }
    }

    /// The bits set in both masks.
    pub fn intersection(self, other: Self) -> (r: Self)
        ensures
            r@ == self@ & other@,
    {
        let a = self.bits;
        let b = other.bits;
        proof {
            use_type_invariant(self);
            assert((a & b) & !ALL == 0) by (bit_vector)
                requires
                    a & !ALL == 0,
            ;
        }
        JobTypeFilter { bits: a & b }
    }

    /// The bits set in this mask and not in `other`.
    pub fn difference(self, other: Self) -> (r: Self)
        ensures
            r@ == self@ & !other@,
    {
        let a = self.bits;
        let b = other.bits;
        proof {
            use_type_invariant(self);
            assert((a & !b) & !ALL == 0) by (bit_vector)
                requires
                    a & !ALL == 0,
            ;
        }
        JobTypeFilter { bits: a & !b }
    }

    /// The bits set in exactly one of the two masks.
    pub fn symmetric_difference(self, other: Self) -> (r: Self)
        ensures
            r@ == self@ ^ other@,
    {
        let a = self.bits;
        let b = other.bits;
        proof {
            use_type_invariant(self);
            use_type_invariant(other);
            assert((a ^ b) & !ALL == 0) by (bit_vector)
                requires
                    a & !ALL == 0,
                    b & !ALL == 0,
            ;
        }
        JobTypeFilter { bits: a ^ b }
    }

    /// The named bits that are not set in this mask.
    pub fn complement(self) -> (r: Self)
        ensures
            r@ == !self@ & ALL,
    {
        let a = self.bits;
        assert((!a & ALL) & !ALL == 0) by (bit_vector);
        JobTypeFilter { bits: !a & ALL }
    }

    /// Sets every bit of `other`.
    pub fn insert(&mut self, other: Self)
        ensures
            final(self)@ == old(self)@ | other@,
    {
        *self = self.union(other);
    }

    /// Clears every bit of `other`.
    pub fn remove(&mut self, other: Self)
        ensures
            final(self)@ == old(self)@ & !other@,
    {
        *self = self.difference(other);
    }

    /// Flips every bit of `other`.
    pub fn toggle(&mut self, other: Self)
        ensures
            final(self)@ == old(self)@ ^ other@,
    {
        *self = self.symmetric_difference(other);
    }

    /// Sets or clears every bit of `other`, as `value` says.
    pub fn set(&mut self, other: Self, value: bool)
        ensures
            final(self)@ == if value {
                old(self)@ | other@
            } else {
                old(self)@ & !other@
            },
    {
        if value {
            self.insert(other);
        } else {
            self.remove(other);
        }
    }

    /// The mask as a string of letters, one per bit that is set, in the fixed
    /// order s, g, u, a, d, l. The empty mask gives the empty string.
    pub fn to_display_string(&self) -> (r: String)
        ensures
            r@ == display_chars(self@),
    {
        proof {
            reveal_with_fuel(display_upto, 7);
            reveal_strlit("s");
            reveal_strlit("g");
            reveal_strlit("u");
            reveal_strlit("a");
            reveal_strlit("d");
            reveal_strlit("l");
            assert("s"@ =~= seq!['s']);
            assert("g"@ =~= seq!['g']);
            assert("u"@ =~= seq!['u']);
            assert("a"@ =~= seq!['a']);
            assert("d"@ =~= seq!['d']);
            assert("l"@ =~= seq!['l']);
        }
        let mut display = String::new();
        assert(display@ =~= display_upto(self@, 0));
        if self.bits & SYSTEM == SYSTEM {
            display.append("s");
        }
        assert(display@ =~= display_upto(self@, 1));
        if self.bits & GLOBAL == GLOBAL {
            display.append("g");
        }
        assert(display@ =~= display_upto(self@, 2));
        if self.bits & USER == USER {
            display.append("u");
        }
        assert(display@ =~= display_upto(self@, 3));
        if self.bits & AGENT == AGENT {
            display.append("a");
        }
        assert(display@ =~= display_upto(self@, 4));
        if self.bits & DAEMON == DAEMON {
            display.append("d");
        }
        assert(display@ =~= display_upto(self@, 5));
        if self.bits & LOADED == LOADED {
            display.append("l");
        }
        assert(display@ =~= display_upto(self@, 6));
        display
    }

    /// The upper-case name of a mask that is exactly one named bit. A mask
    /// of no bit or of several bits has no name: the result is then empty.
    pub fn debug_label(&self) -> (r: String)
        ensures
            r@ == label_chars(self@),
    {
        if self.bits == SYSTEM {
            String::from_str("SYSTEM")
        } else if self.bits == GLOBAL {
            String::from_str("GLOBAL")
        } else if self.bits == USER {
            String::from_str("USER")
        } else if self.bits == AGENT {
            String::from_str("AGENT")
        } else if self.bits == DAEMON {
            String::from_str("DAEMON")
        } else if self.bits == LOADED {
            String::from_str("LOADED")
        } else {
            String::new()
        }
    }
}

/// What `display_upto` holds after the first `n` named bits: the letter of
/// each of them that is set and of no other, every letter of rank below `n`,
/// and the ranks rising from left to right.
proof fn lemma_display_upto(bits: u32, n: nat)
    requires
        n <= 6,
    ensures
        forall|i: int|
            0 <= i < 6 ==> (#[trigger] display_upto(bits, n).contains(letter_at(i)) <==> i < n
                && has_bits(bits, flag_at(i))),
        forall|k: int|
            0 <= k < display_upto(bits, n).len() ==> 0 <= letter_rank(
                #[trigger] display_upto(bits, n)[k],
            ) < n,
        forall|j: int, k: int|
            0 <= j < k < display_upto(bits, n).len() ==> letter_rank(
                #[trigger] display_upto(bits, n)[j],
            ) < letter_rank(#[trigger] display_upto(bits, n)[k]),
    decreases n,
{
    if n > 0 {
        let m = (n - 1) as nat;
        let before = display_upto(bits, m);
        let now = display_upto(bits, n);
        lemma_display_upto(bits, m);
        assert(letter_rank(letter_at(m as int)) == m);
        if has_bits(bits, flag_at(m as int)) {
            assert(now == before.push(letter_at(m as int)));
            assert(now[before.len() as int] == letter_at(m as int));
            assert forall|i: int| 0 <= i < 6 implies (#[trigger] now.contains(letter_at(i)) <==> i
                < n && has_bits(bits, flag_at(i))) by {
                if now.contains(letter_at(i)) {
                    let k = choose|k: int| 0 <= k < now.len() && now[k] == letter_at(i);
                    if k < before.len() {
                        assert(before[k] == letter_at(i));
                        assert(before.contains(letter_at(i)));
                    } else {
                        assert(letter_at(i) == letter_at(m as int));
                        assert(i == m);
                    }
                }
                if i < n && has_bits(bits, flag_at(i)) {
                    if i < m {
                        assert(before.contains(letter_at(i)));
                        let k = choose|k: int| 0 <= k < before.len() && before[k] == letter_at(i);
                        assert(now[k] == letter_at(i));
                    } else {
                        assert(now[before.len() as int] == letter_at(i));
                    }
                }
            }
        } else {
            assert(now == before);
            assert forall|i: int| 0 <= i < 6 implies (#[trigger] now.contains(letter_at(i)) <==> i
                < n && has_bits(bits, flag_at(i))) by {
                assert(before.contains(letter_at(i)) <==> i < m && has_bits(bits, flag_at(i)));
            }
        }
    }
}

/// The rendering holds the letter of a named bit exactly when that bit is
/// set, holds nothing but such letters, and holds them in the order
/// s, g, u, a, d, l, each at most once. A pattern without a named bit renders
/// as the empty string.
pub proof fn display_lists_set_flags_in_order(bits: u32)
    ensures
        forall|i: int|
            0 <= i < 6 ==> (#[trigger] display_chars(bits).contains(letter_at(i)) <==> has_bits(
                bits,
                flag_at(i),
            )),
        forall|k: int|
            0 <= k < display_chars(bits).len() ==> 0 <= letter_rank(
                #[trigger] display_chars(bits)[k],
            ) < 6,
        forall|j: int, k: int|
            0 <= j < k < display_chars(bits).len() ==> letter_rank(
                #[trigger] display_chars(bits)[j],
            ) < letter_rank(#[trigger] display_chars(bits)[k]),
        bits & ALL == 0 ==> display_chars(bits) == Seq::<char>::empty(),
{
    lemma_display_upto(bits, 6);
    if bits & ALL == 0 {
        assert(!has_bits(bits, SYSTEM) && !has_bits(bits, GLOBAL) && !has_bits(bits, USER)
            && !has_bits(bits, AGENT) && !has_bits(bits, DAEMON) && !has_bits(bits, LOADED))
            by (bit_vector)
            requires
                bits & ALL == 0,
        ;
        reveal_with_fuel(display_upto, 7);
        assert(display_chars(bits) =~= Seq::<char>::empty());
    }
}

/// The baseline filter renders as the single letter l.
pub proof fn launchk_default_renders_l()
    ensures
        display_chars(LOADED) == seq!['l'],
{
    assert(!has_bits(LOADED, SYSTEM) && !has_bits(LOADED, GLOBAL) && !has_bits(LOADED, USER)
        && !has_bits(LOADED, AGENT) && !has_bits(LOADED, DAEMON) && has_bits(LOADED, LOADED))
        by (bit_vector);
    reveal_with_fuel(display_upto, 7);
    assert(display_chars(LOADED) =~= seq!['l']);
}

/// Toggling the same bits twice gives the mask back.
pub proof fn toggle_twice_restores(mask: JobTypeFilter, other: JobTypeFilter)
    ensures
        (mask@ ^ other@) ^ other@ == mask@,
{
    let a = mask@;
    let b = other@;
    assert((a ^ b) ^ b == a) by (bit_vector);
}

/// Two masks with the same bit pattern are the same mask.
pub proof fn same_bits_same_mask(a: JobTypeFilter, b: JobTypeFilter)
    requires
        a@ == b@,
    ensures
        a == b,
{
}

} // verus!
