//! Validated chemical elements.

use vstd::prelude::*;

verus! {

/// Number of chemical elements known so far; the upper bound on atomic
/// numbers.  Increment this value if a new element is discovered.
pub const ELEMENTS_COUNT: u8 = 118;

/// Category of a chemical element, when one is known.
#[derive(Clone, Copy, Debug, PartialEq, Eq, Structural)]
pub enum Type {
    Lanthanide,
    Actinide,
    Nonmetal,
    Metal,
    NobleGas,
    TransitionMetal,
    Halogen,
    AlkaliMetal,
    Metalloid,
    AlkalineEarthMetal,
}

/// How many bytes a symbol occupies; symbols are validated against this
/// length, as `str::len` measures it.
pub open spec fn symbol_byte_len(s: Seq<char>) -> nat {
    vstd::utf8::encode_utf8(s).len()
}

/// A symbol is acceptable when it is one or two bytes long.
pub open spec fn symbol_len_ok(s: Seq<char>) -> bool {
    1 <= symbol_byte_len(s) <= 2
}

/// An atomic number is acceptable when it denotes a known element.
pub open spec fn number_ok(n: u8) -> bool {
    1 <= n <= ELEMENTS_COUNT
}

/// A chemical element; immutable once constructed, and only constructed
/// through [`Ratom::build`], which validates the symbol and atomic number.
#[derive(Debug)]
pub struct Ratom {
    symbol: String,
    number: u8,
    name: String,
    pub classification: Option<Type>,
}

/// Why constructing a [`Ratom`] failed.
#[derive(Debug, PartialEq, Eq, Structural)]
pub enum RatomBuildError {
    SymbolLengthOutOfBounds(usize),
    NumberOutOfBounds(u8),
}

impl Ratom {
    /// The element's symbol, as a sequence of characters.
    pub closed spec fn spec_symbol(&self) -> Seq<char> {
        self.symbol@
    }

    /// The element's atomic number.
    pub closed spec fn spec_number(&self) -> u8 {
        self.number
    }

    /// The element's display name.
    pub closed spec fn spec_name(&self) -> Seq<char> {
        self.name@
    }

    /// The element's category, when one is known.
    pub closed spec fn spec_classification(&self) -> Option<Type> {
        self.classification
    }

    /// Every constructed element has an acceptable symbol and atomic number.
    pub open spec fn wf(&self) -> bool {
        symbol_len_ok(self.spec_symbol()) && number_ok(self.spec_number())
    }

    /// Attempt to build a `Ratom`, checking that the symbol length and the
    /// atomic number are in bounds.  Succeeds exactly on acceptable inputs,
    /// and then keeps every field unchanged; a bad symbol length is reported
    /// before a bad atomic number.
    pub fn build(
        symbol: String,
        number: u8,
        name: String,
        classification: Option<Type>,
    ) -> (r: Result<Self, RatomBuildError>)
        ensures
            match r {
                Ok(atom) => {
                    &&& symbol_len_ok(symbol@)
                    &&& number_ok(number)
                    &&& atom.spec_symbol() == symbol@
                    &&& atom.spec_number() == number
                    &&& atom.spec_name() == name@
                    &&& atom.spec_classification() == classification
                    &&& atom.wf()
                },
                Err(RatomBuildError::SymbolLengthOutOfBounds(l)) => {
                    &&& !symbol_len_ok(symbol@)
                    &&& l == symbol_byte_len(symbol@)
                },
                Err(RatomBuildError::NumberOutOfBounds(n)) => {
                    &&& symbol_len_ok(symbol@)
                    &&& !number_ok(number)
                    &&& n == number
                },
            },
    {
        let len = symbol.as_str().as_bytes().len();
        if len == 1 || len == 2 {
            if 1 <= number && number <= ELEMENTS_COUNT {
                Ok(Ratom { symbol, number, name, classification })
            } else {
                Err(RatomBuildError::NumberOutOfBounds(number))
            }
        } else {
            Err(RatomBuildError::SymbolLengthOutOfBounds(len))
        }
    }

    pub fn get_symbol(&self) -> (r: &str)
        ensures
            r@ == self.spec_symbol(),
    {
        self.symbol.as_str()
    }

    pub fn get_number(&self) -> (r: u8)
        ensures
            r == self.spec_number(),
    {
        self.number
    }

    pub fn get_name(&self) -> (r: &str)
        ensures
            r@ == self.spec_name(),
    {
        self.name.as_str()
    }
}

impl Clone for Ratom {
    /// Cloning an element keeps every field.
    fn clone(&self) -> (r: Self)
        ensures
            r == *self,
    {
        Ratom {
            symbol: self.symbol.clone(),
            number: self.number,
            name: self.name.clone(),
            classification: self.classification,
        }
    }
}

} // verus!
