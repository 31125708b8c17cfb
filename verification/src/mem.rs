use vstd::prelude::*;

verus! {

/// Number of addressable bytes: the full 16-bit address space.
pub const MAX_MEM: usize = 65536;

/// Flat 64 KiB byte-addressable memory.
pub struct MEM {
    data: Vec<u8>,
}

impl View for MEM {
    type V = Seq<u8>;

    closed spec fn view(&self) -> Seq<u8> {
        self.data@
    }
}

/// The characters of a two-digit upper-case hex rendering of `b`,
/// followed by one space.
pub open spec fn spec_hex_byte(b: u8) -> Seq<char> {
    seq![spec_hex_char((b / 16) as u8), spec_hex_char((b % 16) as u8), ' ']
}

/// The upper-case hex character for a value below 16.
pub open spec fn spec_hex_char(d: u8) -> char {
    if d == 0 {
        '0'
    } else if d == 1 {
        '1'
    } else if d == 2 {
        '2'
    } else if d == 3 {
        '3'
    } else if d == 4 {
        '4'
    } else if d == 5 {
        '5'
    } else if d == 6 {
        '6'
    } else if d == 7 {
        '7'
    } else if d == 8 {
        '8'
    } else if d == 9 {
        '9'
    } else if d == 10 {
        'A'
    } else if d == 11 {
        'B'
    } else if d == 12 {
        'C'
    } else if d == 13 {
        'D'
    } else if d == 14 {
        'E'
    } else {
        'F'
    }
}

/// The hex rendering of the bytes of `m` at the addresses of
/// `[start, end)`, three characters each.
pub open spec fn spec_hex_dump(m: Seq<u8>, start: int, end: int) -> Seq<char>
    decreases end - start,
{
    if start >= end {
        Seq::empty()
    } else {
        spec_hex_dump(m, start, end - 1) + spec_hex_byte(m[end - 1])
    }
}

/// The string for one hex digit, upper case.
fn hex_char_str(d: u8) -> (r: &'static str)
    requires
        d < 16,
    ensures
        r@ == seq![spec_hex_char(d)],
{
    proof {
        reveal_strlit("0");
        reveal_strlit("1");
        reveal_strlit("2");
        reveal_strlit("3");
        reveal_strlit("4");
        reveal_strlit("5");
        reveal_strlit("6");
        reveal_strlit("7");
        reveal_strlit("8");
        reveal_strlit("9");
        reveal_strlit("A");
        reveal_strlit("B");
        reveal_strlit("C");
        reveal_strlit("D");
        reveal_strlit("E");
        reveal_strlit("F");
    }
    match d {
        0 => "0",
        1 => "1",
        2 => "2",
        3 => "3",
        4 => "4",
        5 => "5",
        6 => "6",
        7 => "7",
        8 => "8",
        9 => "9",
        10 => "A",
        11 => "B",
        12 => "C",
        13 => "D",
        14 => "E",
        _ => "F",
    }
}

impl MEM {
    /// The memory is its full 64 KiB size.
    pub open spec fn wf(&self) -> bool {
        self@.len() == MAX_MEM
    }

    /// Create a new memory with every byte zero.
    pub fn new() -> (r: MEM)
        ensures
            r.wf(),
            forall|i: int| 0 <= i < MAX_MEM ==> r@[i] == 0u8,
    {
        MEM { data: vec![0u8; MAX_MEM] }
    }

    /// Fill the whole memory with zeroes.
    pub fn initalize(&mut self)
        ensures
            final(self).wf(),
            forall|i: int| 0 <= i < MAX_MEM ==> final(self)@[i] == 0u8,
    {
        self.data = vec![0u8; MAX_MEM];
    }

    /// Read the byte at `address`.
    pub fn read(&self, address: usize) -> (r: u8)
        requires
            self.wf(),
            address < MAX_MEM,
        ensures
            r == self@[address as int],
    {
        self.data[address]
    }

    /// Write `value` to the byte at `address`.
    pub fn write(&mut self, address: usize, value: u8)
        requires
            old(self).wf(),
            address < MAX_MEM,
        ensures
            final(self).wf(),
            final(self)@ == old(self)@.update(address as int, value),
    {
        self.data[address] = value;
    }

    /// Write a 16-bit `value` little-endian at `address` and `address + 1`,
    /// charging two cycles.
    pub fn write_word(&mut self, cycles: &mut u32, value: u16, address: u32)
        requires
            old(self).wf(),
            address + 1 < MAX_MEM,
            *old(cycles) >= 2,
        ensures
            final(self).wf(),
            final(self)@ == old(self)@.update(address as int, (value % 256) as u8).update(
                address as int + 1,
                (value / 256) as u8,
            ),
            *final(cycles) == *old(cycles) - 2,
    {
        self.data[address as usize] = (value % 256) as u8;
        self.data[address as usize + 1] = (value / 256) as u8;
        *cycles = *cycles - 2;
    }

    /// Render the bytes at the addresses of `[start, end)` as
    /// space-separated two-digit upper-case hex.
    pub fn hex_dump(&self, start: usize, end: usize) -> (r: String)
        requires
            self.wf(),
            end <= MAX_MEM,
        ensures
            r@ == spec_hex_dump(self@, start as int, end as int),
    {
        let mut dump = String::new();
        let mut i: usize = start;
        while i < end
            invariant
                self.wf(),
                start <= i <= end || (start > end && i == start),
                end <= MAX_MEM,
                dump@ == spec_hex_dump(self@, start as int, i as int),
            decreases end - i,
        {
            let byte = self.data[i];
            dump.append(hex_char_str(byte / 16));
            dump.append(hex_char_str(byte % 16));
            proof {
                reveal_strlit(" ");
            }
            dump.append(" ");
            i = i + 1;
        }
        dump
    }
}

} // verus!
