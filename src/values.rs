//! Values that a mapping knob can hold, and their JSON text.
use vstd::prelude::*;
use crate::text::{digits_of, json_string_of, push_digits, push_quoted, MappingError};

verus! {

/// A decimal number: `mantissa / 10^scale`, negated when `negative` holds.
///
/// `Decimal { negative: false, mantissa: 15, scale: 1 }` is `1.5`.
#[derive(Debug, Clone, Copy, PartialEq, Eq, Structural)]
pub struct Decimal {
    pub negative: bool,
    pub mantissa: u64,
    pub scale: u8,
}

/// `n` zero characters.
pub open spec fn zeros(n: nat) -> Seq<char> {
    Seq::new(n, |i: int| '0')
}

impl Decimal {
    /// The digits of the mantissa, with leading zeros so that at least one
    /// digit stands before the point.
    pub open spec fn padded(&self) -> Seq<char> {
        let ds = digits_of(self.mantissa as nat);
        if ds.len() > self.scale {
            ds
        } else {
            zeros((self.scale + 1 - ds.len()) as nat) + ds
        }
    }

    /// The JSON number for this decimal: a sign, the whole part, and when
    /// `scale > 0` a point followed by exactly `scale` digits.
    pub open spec fn text(&self) -> Seq<char> {
        let ds = self.padded();
        let cut = ds.len() - self.scale;
        let sign = if self.negative { seq!['-'] } else { Seq::empty() };
        if self.scale == 0 {
            sign + ds
        } else {
            sign + ds.subrange(0, cut) + seq!['.'] + ds.subrange(cut, ds.len() as int)
        }
    }

    /// The decimal `mantissa / 10^scale`.
    pub fn new(negative: bool, mantissa: u64, scale: u8) -> (r: Decimal)
        ensures
            r == (Decimal { negative, mantissa, scale }),
    {
        Decimal { negative, mantissa, scale }
    }

    /// Appends the JSON number for this decimal to `out`.
    pub fn write(&self, out: &mut String)
        ensures
            final(out)@ == old(out)@ + self.text(),
    {
        proof {
            reveal_strlit("-");
            reveal_strlit(".");
            reveal_strlit("0");
        }
        let mut ds = String::new();
        push_digits(&mut ds, self.mantissa);
        assert(ds@ == digits_of(self.mantissa as nat));
        let len = ds.as_str().unicode_len();
        let mut padded = String::new();
        if len <= self.scale as usize {
            let n: usize = self.scale as usize + 1 - len;
            let mut i: usize = 0;
            while i < n
                invariant
                    i <= n,
                    padded@ == zeros(i as nat),
                decreases n - i,
            {
                proof {
                    reveal_strlit("0");
                }
                padded.append("0");
                i = i + 1;
                assert(padded@ =~= zeros(i as nat));
            }
        }
        padded.append(ds.as_str());
        assert(padded@ =~= self.padded());
        if self.negative {
            out.append("-");
        }
        let total = padded.as_str().unicode_len();
        if self.scale == 0 {
            out.append(padded.as_str());
        } else {
            let cut = total - self.scale as usize;
            out.append(padded.as_str().substring_char(0, cut));
            out.append(".");
            out.append(padded.as_str().substring_char(cut, total));
        }
        assert(final(out)@ =~= old(out)@ + self.text());
    }
}

/// An IPv4 address, as its four octets.
#[derive(Debug, Clone, Copy, PartialEq, Eq, Structural)]
pub struct Ipv4 {
    pub a: u8,
    pub b: u8,
    pub c: u8,
    pub d: u8,
}

impl Ipv4 {
    /// The dotted form `a.b.c.d`.
    pub open spec fn text(&self) -> Seq<char> {
        digits_of(self.a as nat) + seq!['.'] + digits_of(self.b as nat) + seq!['.']
            + digits_of(self.c as nat) + seq!['.'] + digits_of(self.d as nat)
    }

    /// The address `a.b.c.d`.
    pub fn new(a: u8, b: u8, c: u8, d: u8) -> (r: Ipv4)
        ensures
            r == (Ipv4 { a, b, c, d }),
    {
        Ipv4 { a, b, c, d }
    }

    /// The dotted form of this address.
    pub fn to_dotted(&self) -> (r: String)
        ensures
            r@ == self.text(),
    {
        proof {
            reveal_strlit(".");
        }
        let mut out = String::new();
        push_digits(&mut out, self.a as u64);
        out.append(".");
        push_digits(&mut out, self.b as u64);
        out.append(".");
        push_digits(&mut out, self.c as u64);
        out.append(".");
        push_digits(&mut out, self.d as u64);
        assert(out@ =~= self.text());
        out
    }
}

/// The value of a set configuration knob.
#[derive(Debug, Clone, PartialEq, Eq)]
pub enum KnobValue {
    Bool(bool),
    Number(Decimal),
    Text(String),
    Ip(Ipv4),
}

impl KnobValue {
    /// The JSON text of this value: a boolean, a number, or a string.
    pub open spec fn text(&self) -> Seq<char> {
        match self {
            KnobValue::Bool(b) => if *b { "true"@ } else { "false"@ },
            KnobValue::Number(d) => d.text(),
            KnobValue::Text(s) => json_string_of(s@),
            KnobValue::Ip(ip) => json_string_of(ip.text()),
        }
    }

    /// Appends the JSON text of this value to `out`.
    pub fn write(&self, out: &mut String) -> (r: Result<(), MappingError>)
        ensures
            r is Ok,
            final(out)@ == old(out)@ + self.text(),
    {
        match self {
            KnobValue::Bool(b) => {
                if *b {
                    out.append("true");
                } else {
                    out.append("false");
                }
                Ok(())
            },
            KnobValue::Number(d) => {
                d.write(out);
                Ok(())
            },
            KnobValue::Text(s) => push_quoted(out, s.as_str()),
            KnobValue::Ip(ip) => {
                let dotted = ip.to_dotted();
                push_quoted(out, dotted.as_str())
            },
        }
    }
}

} // verus!
