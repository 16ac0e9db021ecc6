//! A builder that collects the parts of a car and checks that none is
//! missing.

use vstd::prelude::*;
use vstd::string::*;

verus! {

/// A car with all of its parts.
#[derive(Debug, Clone)]
pub struct Car {
    pub make: String,
    pub model: String,
    pub year: u32,
}

/// The parts given so far.
#[derive(Debug, Clone)]
pub struct CarBuilder {
    pub make: Option<String>,
    pub model: Option<String>,
    pub year: Option<u32>,
}

/// The text of an optional string, where there is one.
pub open spec fn text_of(s: Option<String>) -> Option<Seq<char>> {
    match s {
        Some(s) => Some(s@),
        None => None,
    }
}

/// What `build` answers where a part is missing: the first missing part
/// decides.
pub open spec fn missing_part(b: CarBuilder) -> Option<Seq<char>> {
    if b.make is None {
        Some("Make is required"@)
    } else if b.model is None {
        Some("Model is required"@)
    } else if b.year is None {
        Some("Year is required"@)
    } else {
        None
    }
}

impl CarBuilder {
    /// A builder with no part given.
    pub fn new() -> (b: CarBuilder)
        ensures
            b.make is None,
            b.model is None,
            b.year is None,
    {
        CarBuilder { make: None, model: None, year: None }
    }

    /// Sets the make, replacing an earlier one.
    pub fn make(self, make: &str) -> (b: CarBuilder)
        ensures
            text_of(b.make) == Some(make@),
            b.model == self.model,
            b.year == self.year,
    {
        let mut b = self;
        b.make = Some(make.to_owned());
        b
    }

    /// Sets the model, replacing an earlier one.
    pub fn model(self, model: &str) -> (b: CarBuilder)
        ensures
            text_of(b.model) == Some(model@),
            b.make == self.make,
            b.year == self.year,
    {
        let mut b = self;
        b.model = Some(model.to_owned());
        b
    }

    /// Sets the year, replacing an earlier one.
    pub fn year(self, year: u32) -> (b: CarBuilder)
        ensures
            b.year == Some(year),
            b.make == self.make,
            b.model == self.model,
    {
        let mut b = self;
        b.year = Some(year);
        b
    }
}

/// Something that collects parts and makes a value of them.
pub trait Buildable {
    type Output;

    /// Makes the value of the parts given.
    fn build(self) -> Self::Output;

    /// Forgets every part given so far.
    fn reset(&mut self);
}

impl Buildable for CarBuilder {
    type Output = Result<Car, String>;

    /// The car made of the parts given, or the name of the first part that
    /// is missing.
    fn build(self) -> (r: Result<Car, String>)
        ensures
            match r {
                Ok(car) => missing_part(self) is None && self.make == Some(car.make)
                    && self.model == Some(car.model) && self.year == Some(car.year),
                Err(e) => missing_part(self) == Some(e@),
            },
    {
        let make = match self.make {
            Some(make) => make,
            None => {
                return Err("Make is required".to_owned());
            },
        };
        let model = match self.model {
            Some(model) => model,
            None => {
                return Err("Model is required".to_owned());
            },
        };
        let year = match self.year {
            Some(year) => year,
            None => {
                return Err("Year is required".to_owned());
            },
        };
        Ok(Car { make, model, year })
    }

    fn reset(&mut self)
        ensures
            final(self).make is None,
            final(self).model is None,
            final(self).year is None,
    {
        self.make = None;
        self.model = None;
        self.year = None;
    }
}

} // verus!
