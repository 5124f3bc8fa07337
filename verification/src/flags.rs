//! The six control flags of a TCP header: their bits, their names, and the
//! decoding of a flags byte.

use vstd::prelude::*;

verus! {

/// A TCP control flag.
#[derive(Clone, Copy, Debug, PartialEq, Eq, Structural)]
pub enum TcpFlag {
    Fin,
    Syn,
    Rst,
    Psh,
    Ack,
    Urg,
}

impl TcpFlag {
    /// The bit of the flag in the flags byte of a TCP header.
    pub open spec fn bit(self) -> u8 {
        match self {
            TcpFlag::Fin => 0x01,
            TcpFlag::Syn => 0x02,
            TcpFlag::Rst => 0x04,
            TcpFlag::Psh => 0x08,
            TcpFlag::Ack => 0x10,
            TcpFlag::Urg => 0x20,
        }
    }

    /// The name of the flag.
    pub open spec fn name_view(self) -> Seq<char> {
        match self {
            TcpFlag::Fin => seq!['F', 'I', 'N'],
            TcpFlag::Syn => seq!['S', 'Y', 'N'],
            TcpFlag::Rst => seq!['R', 'S', 'T'],
            TcpFlag::Psh => seq!['P', 'S', 'H'],
            TcpFlag::Ack => seq!['A', 'C', 'K'],
            TcpFlag::Urg => seq!['U', 'R', 'G'],
        }
    }

    /// The bit of the flag in the flags byte of a TCP header.
    pub fn mask(self) -> (mask: u8)
        ensures
            mask == self.bit(),
    {
        match self {
            TcpFlag::Fin => 0x01,
            TcpFlag::Syn => 0x02,
            TcpFlag::Rst => 0x04,
            TcpFlag::Psh => 0x08,
            TcpFlag::Ack => 0x10,
            TcpFlag::Urg => 0x20,
        }
    }

    /// The name of the flag, three capital letters.
    pub fn name(self) -> (name: &'static str)
        ensures
            name@ == self.name_view(),
    {
        proof {
            reveal_strlit("FIN");
            reveal_strlit("SYN");
            reveal_strlit("RST");
            reveal_strlit("PSH");
            reveal_strlit("ACK");
            reveal_strlit("URG");
        }
        let name: &'static str = match self {
            TcpFlag::Fin => "FIN",
            TcpFlag::Syn => "SYN",
            TcpFlag::Rst => "RST",
            TcpFlag::Psh => "PSH",
            TcpFlag::Ack => "ACK",
            TcpFlag::Urg => "URG",
        };
        assert(name@ =~= self.name_view());
        name
    }
}

/// Whether the flags byte `flags` has the bit of `flag` set.
pub open spec fn has_flag(flags: u8, flag: TcpFlag) -> bool {
    flags & flag.bit() != 0
}

/// The flag alone if `flags` has it, else nothing.
pub open spec fn flag_if_set(flags: u8, flag: TcpFlag) -> Seq<TcpFlag> {
    if has_flag(flags, flag) {
        seq![flag]
    } else {
        Seq::empty()
    }
}

/// The flags that a flags byte has, from the lowest bit up.
pub open spec fn flags_present(flags: u8) -> Seq<TcpFlag> {
    flag_if_set(flags, TcpFlag::Fin) + flag_if_set(flags, TcpFlag::Syn) + flag_if_set(
        flags,
        TcpFlag::Rst,
    ) + flag_if_set(flags, TcpFlag::Psh) + flag_if_set(flags, TcpFlag::Ack) + flag_if_set(
        flags,
        TcpFlag::Urg,
    )
}

/// The names joined by a vertical bar.
pub open spec fn joined_by_bar(names: Seq<Seq<char>>) -> Seq<char>
    decreases names.len(),
{
    if names.len() == 0 {
        Seq::empty()
    } else if names.len() == 1 {
        names[0]
    } else {
        joined_by_bar(names.drop_last()) + seq!['|'] + names.last()
    }
}

/// The names of a run of flags.
pub open spec fn names_of(present: Seq<TcpFlag>) -> Seq<Seq<char>> {
    Seq::new(present.len(), |i: int| present[i].name_view())
}

/// The text that reports a flags byte: the names of its flags joined by a
/// vertical bar, or `NONE` where it has none of the six.
pub open spec fn flags_text(flags: u8) -> Seq<char> {
    if flags_present(flags).len() == 0 {
        seq!['N', 'O', 'N', 'E']
    } else {
        joined_by_bar(names_of(flags_present(flags)))
    }
}

/// Decodes a flags byte into the flags that it has, from the lowest bit up.
pub fn present_flags(flags: u8) -> (present: Vec<TcpFlag>)
    ensures
        present@ == flags_present(flags),
{
    let mut present: Vec<TcpFlag> = Vec::new();
    if flags & 0x01 != 0 {
        present.push(TcpFlag::Fin);
    }
    if flags & 0x02 != 0 {
        present.push(TcpFlag::Syn);
    }
    if flags & 0x04 != 0 {
        present.push(TcpFlag::Rst);
    }
    if flags & 0x08 != 0 {
        present.push(TcpFlag::Psh);
    }
    if flags & 0x10 != 0 {
        present.push(TcpFlag::Ack);
    }
    if flags & 0x20 != 0 {
        present.push(TcpFlag::Urg);
    }
    assert(present@ =~= flags_present(flags));
    present
}

/// Joins names with a vertical bar between them.
///
/// Calls `join` of std on the slice of names, with `"|"` as the separator. The
/// contract claims what its documentation says: the names in order, the
/// separator between each two of them.
#[verifier::external_body]
fn join_with_bar(names: &Vec<&'static str>) -> (text: String)
    ensures
        text@ == joined_by_bar(Seq::new(names@.len(), |i: int| names@[i]@)),
{
    names.join("|")
}

/// Reports a flags byte as text: the names of its flags joined by a vertical
/// bar, or `NONE` where it has none of the six.
pub fn decode_tcp_flags(flags: u8) -> (text: String)
    ensures
        text@ == flags_text(flags),
{
    let present: Vec<TcpFlag> = present_flags(flags);
    if present.len() == 0 {
        proof {
            reveal_strlit("NONE");
        }
        let text: String = "NONE".to_owned();
        assert(text@ =~= flags_text(flags));
        text
    } else {
        let mut names: Vec<&'static str> = Vec::new();
        let mut i: usize = 0;
        while i < present.len()
            invariant
                i <= present@.len(),
                names@.len() == i,
                forall|k: int| 0 <= k < i ==> names@[k]@ == present@[k].name_view(),
            decreases present@.len() - i,
        {
            names.push(present[i].name());
            i = i + 1;
        }
        assert(Seq::new(names@.len(), |i: int| names@[i]@) =~= names_of(present@));
        join_with_bar(&names)
    }
}

/// The flags byte for a flag letter: `S`, `A`, `F`, `R`, `P` or `U`.
pub open spec fn flag_of_letter(letter: Seq<char>) -> Option<u8> {
    if letter == seq!['S'] {
        Some(0x02u8)
    } else if letter == seq!['A'] {
        Some(0x10u8)
    } else if letter == seq!['F'] {
        Some(0x01u8)
    } else if letter == seq!['R'] {
        Some(0x04u8)
    } else if letter == seq!['P'] {
        Some(0x08u8)
    } else if letter == seq!['U'] {
        Some(0x20u8)
    } else {
        None
    }
}

/// Gives the flags byte for a capital flag letter, or nothing for any other
/// text.
pub fn flag_for_letter(letter: &str) -> (flags: Option<u8>)
    ensures
        flags == flag_of_letter(letter@),
{
    if letter.unicode_len() != 1 {
        return None;
    }
    let c: char = letter.get_char(0);
    assert(letter@ =~= seq![c]);
    if c == 'S' {
        Some(0x02)
    } else if c == 'A' {
        Some(0x10)
    } else if c == 'F' {
        Some(0x01)
    } else if c == 'R' {
        Some(0x04)
    } else if c == 'P' {
        Some(0x08)
    } else if c == 'U' {
        Some(0x20)
    } else {
        None
    }
}

/// The upper-case form of a text, as std computes it.
pub uninterp spec fn uppercase_of(text: Seq<char>) -> Seq<char>;

/// The upper-case form of a text.
///
/// Calls `str::to_uppercase` of std; the contract gives its result a name and
/// claims nothing else of it.
#[verifier::external_body]
fn to_uppercase(text: &str) -> (upper: String)
    ensures
        upper@ == uppercase_of(text@),
{
    text.to_uppercase()
}

/// Gives the flags byte for a flag letter in either case, or nothing for any
/// other text.
pub fn flag_format(flag: &String) -> (flags: Option<u8>)
    ensures
        flags == flag_of_letter(uppercase_of(flag@)),
{
    let upper: String = to_uppercase(flag.as_str());
    flag_for_letter(upper.as_str())
}

/// A flag letter names exactly the flag whose bit it gives: decoding the byte
/// reports that flag and no other.
pub proof fn lemma_letter_decodes_to_one_flag(letter: Seq<char>)
    requires
        flag_of_letter(letter) is Some,
    ensures
        flags_present(flag_of_letter(letter)->0).len() == 1,
        flags_present(flag_of_letter(letter)->0)[0].bit() == flag_of_letter(letter)->0,
{
    let flags = flag_of_letter(letter)->0;
    assert(0x01u8 & 0x01 != 0 && 0x01u8 & 0x02 == 0 && 0x01u8 & 0x04 == 0 && 0x01u8 & 0x08 == 0
        && 0x01u8 & 0x10 == 0 && 0x01u8 & 0x20 == 0) by (bit_vector);
    assert(0x02u8 & 0x01 == 0 && 0x02u8 & 0x02 != 0 && 0x02u8 & 0x04 == 0 && 0x02u8 & 0x08 == 0
        && 0x02u8 & 0x10 == 0 && 0x02u8 & 0x20 == 0) by (bit_vector);
    assert(0x04u8 & 0x01 == 0 && 0x04u8 & 0x02 == 0 && 0x04u8 & 0x04 != 0 && 0x04u8 & 0x08 == 0
        && 0x04u8 & 0x10 == 0 && 0x04u8 & 0x20 == 0) by (bit_vector);
    assert(0x08u8 & 0x01 == 0 && 0x08u8 & 0x02 == 0 && 0x08u8 & 0x04 == 0 && 0x08u8 & 0x08 != 0
        && 0x08u8 & 0x10 == 0 && 0x08u8 & 0x20 == 0) by (bit_vector);
    assert(0x10u8 & 0x01 == 0 && 0x10u8 & 0x02 == 0 && 0x10u8 & 0x04 == 0 && 0x10u8 & 0x08 == 0
        && 0x10u8 & 0x10 != 0 && 0x10u8 & 0x20 == 0) by (bit_vector);
    assert(0x20u8 & 0x01 == 0 && 0x20u8 & 0x02 == 0 && 0x20u8 & 0x04 == 0 && 0x20u8 & 0x08 == 0
        && 0x20u8 & 0x10 == 0 && 0x20u8 & 0x20 != 0) by (bit_vector);
}

} // verus!
