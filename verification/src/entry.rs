//! The tasting record: its enumerated attributes, the rating rule, and the
//! plaintext block a record is written as.

use crate::text::{decimal, ends_with, occurs_at, push_decimal};
use crate::timestamp::{Timestamp, TimestampView};
use vstd::prelude::*;
use vstd::string::*;

verus! {

/// How the beans were processed after harvest.
#[derive(Debug, Clone, Copy, PartialEq, Eq, Structural)]
pub enum ProcessingMethod {
    Washed,
    Natural,
    PulpedNatural,
    AnerobicFermentation,
}

/// How far the beans were roasted.
#[derive(Debug, Clone, Copy, PartialEq, Eq, Structural)]
pub enum Roast {
    Light,
    Medium,
    Dark,
}

/// The drink the coffee was tasted as.
#[derive(Debug, Clone, Copy, PartialEq, Eq, Structural)]
pub enum Preparation {
    Americano,
    Cortado,
    Drip,
    Espresso,
    Latte,
    Pourover,
}

impl ProcessingMethod {
    /// The name the journal shows for this method.
    pub open spec fn display_text(self) -> Seq<char> {
        match self {
            ProcessingMethod::Washed => "Washed"@,
            ProcessingMethod::Natural => "Natural"@,
            ProcessingMethod::PulpedNatural => "Pulped Natural"@,
            ProcessingMethod::AnerobicFermentation => "Anerobic Fermentation"@,
        }
    }

    /// The name the journal shows for this method.
    pub fn display_name(&self) -> (name: &'static str)
        ensures
            name@ == self.display_text(),
    {
        match self {
            ProcessingMethod::Washed => "Washed",
            ProcessingMethod::Natural => "Natural",
            ProcessingMethod::PulpedNatural => "Pulped Natural",
            ProcessingMethod::AnerobicFermentation => "Anerobic Fermentation",
        }
    }

    /// The display name as an owned string.
    pub fn to_string(&self) -> (name: String)
        ensures
            name@ == self.display_text(),
    {
        String::from_str(self.display_name())
    }
}

impl Roast {
    /// The name the journal shows for this roast.
    pub open spec fn display_text(self) -> Seq<char> {
        match self {
            Roast::Light => "Light"@,
            Roast::Medium => "Medium"@,
            Roast::Dark => "Dark"@,
        }
    }

    /// The name the journal shows for this roast.
    pub fn display_name(&self) -> (name: &'static str)
        ensures
            name@ == self.display_text(),
    {
        match self {
            Roast::Light => "Light",
            Roast::Medium => "Medium",
            Roast::Dark => "Dark",
        }
    }

    /// The display name as an owned string.
    pub fn to_string(&self) -> (name: String)
        ensures
            name@ == self.display_text(),
    {
        String::from_str(self.display_name())
    }
}

impl Preparation {
    /// The name the journal shows for this preparation.
    pub open spec fn display_text(self) -> Seq<char> {
        match self {
            Preparation::Americano => "Americano"@,
            Preparation::Cortado => "Cortado"@,
            Preparation::Drip => "Drip"@,
            Preparation::Espresso => "Espresso"@,
            Preparation::Latte => "Latte"@,
            Preparation::Pourover => "Pourover"@,
        }
    }

    /// The name the journal shows for this preparation.
    pub fn display_name(&self) -> (name: &'static str)
        ensures
            name@ == self.display_text(),
    {
        match self {
            Preparation::Americano => "Americano",
            Preparation::Cortado => "Cortado",
            Preparation::Drip => "Drip",
            Preparation::Espresso => "Espresso",
            Preparation::Latte => "Latte",
            Preparation::Pourover => "Pourover",
        }
    }

    /// The display name as an owned string.
    pub fn to_string(&self) -> (name: String)
        ensures
            name@ == self.display_text(),
    {
        String::from_str(self.display_name())
    }
}

/// The lowest rating a record can carry.
pub const MIN_RATING: u8 = 1;

/// The highest rating a record can carry.
pub const MAX_RATING: u8 = 10;

/// The rating rule: a whole number from 1 to 10.
pub open spec fn rating_in_range(rating: int) -> bool {
    MIN_RATING <= rating <= MAX_RATING
}

/// The message a rejected rating is reported with; it ends with the rating
/// in decimal.
pub open spec fn rating_error_text(rating: nat) -> Seq<char> {
    "Rating must be between 1 and 10, got "@ + decimal(rating)
}

/// One line of a block: a label, a value, and a line feed.
pub open spec fn labelled_line(label: Seq<char>, value: Seq<char>) -> Seq<char> {
    label + value + seq!['\n']
}

/// The line that closes every block.
pub open spec fn separator_line() -> Seq<char> {
    "---\n"@
}

/// What a [`CoffeeEntry`] holds, with strings as character sequences and
/// numbers as mathematical integers.
pub struct CoffeeEntryView {
    pub timestamp: TimestampView,
    pub brand: Seq<char>,
    pub name: Seq<char>,
    pub origin: Seq<char>,
    pub processing: ProcessingMethod,
    pub roast: Roast,
    pub preparation: Preparation,
    pub rating: int,
}

impl CoffeeEntryView {
    /// The moment exists and the rating obeys the rating rule.
    pub open spec fn well_formed(self) -> bool {
        self.timestamp.well_formed() && rating_in_range(self.rating)
    }

    /// The block the record is written as: the moment, one labelled line per
    /// field, and the separator line.
    pub open spec fn plaintext(self) -> Seq<char> {
        self.timestamp.text() + seq!['\n'] + labelled_line("Brand: "@, self.brand)
            + labelled_line("Name: "@, self.name) + labelled_line("Origin: "@, self.origin)
            + labelled_line("Processing: "@, self.processing.display_text()) + labelled_line(
            "Roast: "@,
            self.roast.display_text(),
        ) + labelled_line("Preparation: "@, self.preparation.display_text()) + labelled_line(
            "Rating: "@,
            decimal(self.rating as nat) + "/10"@,
        ) + separator_line()
    }
}

/// Every block ends with the separator line.
pub proof fn lemma_plaintext_ends_with_separator(entry: CoffeeEntryView)
    ensures
        ends_with(entry.plaintext(), separator_line()),
{
    let text = entry.plaintext();
    let body = text.subrange(0, text.len() - separator_line().len());
    assert(text =~= body + separator_line());
    assert(text.subrange(text.len() - separator_line().len(), text.len() as int)
        =~= separator_line());
}

/// Writing a record out is a function of the record alone: whatever two calls
/// of [`CoffeeEntry::to_plaintext`] on one record return is the same text,
/// and it ends with the separator line.
pub proof fn lemma_plaintext_is_pure(entry: CoffeeEntryView, first: Seq<char>, second: Seq<char>)
    requires
        first == entry.plaintext(),
        second == entry.plaintext(),
    ensures
        first == second,
        ends_with(first, separator_line()),
{
    lemma_plaintext_ends_with_separator(entry);
}

/// Every block holds the record's brand line, right after the moment's line.
pub proof fn lemma_plaintext_holds_brand(entry: CoffeeEntryView)
    ensures
        occurs_at(
            entry.plaintext(),
            labelled_line("Brand: "@, entry.brand),
            entry.timestamp.text().len() as int + 1,
        ),
{
    let text = entry.plaintext();
    let line = labelled_line("Brand: "@, entry.brand);
    let at = entry.timestamp.text().len() as int + 1;
    assert(text.subrange(at, at + line.len()) =~= line);
}

/// One tasting: when it took place, what was tasted, and how it was rated.
/// The rating of every record is from 1 to 10.
#[derive(Debug, PartialEq)]
pub struct CoffeeEntry {
    timestamp: Timestamp,
    brand: String,
    name: String,
    origin: String,
    processing: ProcessingMethod,
    roast: Roast,
    preparation: Preparation,
    rating: u8,
}

impl View for CoffeeEntry {
    type V = CoffeeEntryView;

    closed spec fn view(&self) -> CoffeeEntryView {
        CoffeeEntryView {
            timestamp: self.timestamp@,
            brand: self.brand@,
            name: self.name@,
            origin: self.origin@,
            processing: self.processing,
            roast: self.roast,
            preparation: self.preparation,
            rating: self.rating as int,
        }
    }
}

impl Clone for CoffeeEntry {
    fn clone(&self) -> (copy: Self)
        ensures
            copy@ == self@,
    {
        proof {
            use_type_invariant(self);
        }
        CoffeeEntry {
            timestamp: self.timestamp,
            brand: self.brand.clone(),
            name: self.name.clone(),
            origin: self.origin.clone(),
            processing: self.processing,
            roast: self.roast,
            preparation: self.preparation,
            rating: self.rating,
        }
    }
}

/// The message for a rating outside 1 to 10.
fn rating_error(rating: u8) -> (message: String)
    ensures
        message@ == rating_error_text(rating as nat),
{
    let mut message = String::from_str("Rating must be between 1 and 10, got ");
    push_decimal(&mut message, rating as u32);
    message
}

/// Appends a label, a value and a line feed to `out`.
fn push_line(out: &mut String, label: &str, value: &str)
    ensures
        final(out)@ == old(out)@ + labelled_line(label@, value@),
{
    proof {
        reveal_strlit("\n");
    }
    out.append(label);
    out.append(value);
    out.append("\n");
    assert(out@ =~= old(out)@ + labelled_line(label@, value@));
}

impl CoffeeEntry {
    /// Holds of every `CoffeeEntry` a program can have.
    #[verifier::type_invariant]
    pub open spec fn is_valid(self) -> bool {
        self@.well_formed()
    }

    /// A record of a tasting that takes place now, by the local clock.
    ///
    /// A rating from 1 to 10 gives the record, with every field as handed
    /// in; any other rating gives the message that names it. The clock is
    /// read only for a record that is made.
    #[allow(clippy::too_many_arguments)]
    pub fn new(
        brand: String,
        name: String,
        origin: String,
        processing: ProcessingMethod,
        roast: Roast,
        preparation: Preparation,
        rating: u8,
    ) -> (result: Result<CoffeeEntry, String>)
        ensures
            result is Ok <==> rating_in_range(rating as int),
            result matches Ok(entry) ==> entry@.well_formed() && entry@ == (CoffeeEntryView {
                timestamp: entry@.timestamp,
                brand: brand@,
                name: name@,
                origin: origin@,
                processing,
                roast,
                preparation,
                rating: rating as int,
            }),
            result matches Err(message) ==> message@ == rating_error_text(rating as nat),
    {
        if rating < MIN_RATING || rating > MAX_RATING {
            return Err(rating_error(rating));
        }
        Self::with_timestamp(
            Timestamp::now(),
            brand,
            name,
            origin,
            processing,
            roast,
            preparation,
            rating,
        )
    }

    /// A record of a tasting that took place at `timestamp`.
    ///
    /// A rating from 1 to 10 gives the record, with every field as handed
    /// in; any other rating gives the message that names it.
    #[allow(clippy::too_many_arguments)]
    pub fn with_timestamp(
        timestamp: Timestamp,
        brand: String,
        name: String,
        origin: String,
        processing: ProcessingMethod,
        roast: Roast,
        preparation: Preparation,
        rating: u8,
    ) -> (result: Result<CoffeeEntry, String>)
        ensures
            result is Ok <==> rating_in_range(rating as int),
            result matches Ok(entry) ==> entry@.well_formed() && entry@ == (CoffeeEntryView {
                timestamp: timestamp@,
                brand: brand@,
                name: name@,
                origin: origin@,
                processing,
                roast,
                preparation,
                rating: rating as int,
            }),
            result matches Err(message) ==> message@ == rating_error_text(rating as nat),
    {
        if rating < MIN_RATING || rating > MAX_RATING {
            return Err(rating_error(rating));
        }
        proof {
            use_type_invariant(&timestamp);
        }
        Ok(CoffeeEntry { timestamp, brand, name, origin, processing, roast, preparation, rating })
    }

    /// When the tasting took place.
    pub fn timestamp(&self) -> (timestamp: Timestamp)
        ensures
            timestamp@ == self@.timestamp,
    {
        self.timestamp
    }

    /// The roaster or vendor.
    pub fn brand(&self) -> (brand: &str)
        ensures
            brand@ == self@.brand,
    {
        self.brand.as_str()
    }

    /// The product or lot.
    pub fn name(&self) -> (name: &str)
        ensures
            name@ == self@.name,
    {
        self.name.as_str()
    }

    /// Where the coffee was grown.
    pub fn origin(&self) -> (origin: &str)
        ensures
            origin@ == self@.origin,
    {
        self.origin.as_str()
    }

    /// How the beans were processed.
    pub fn processing(&self) -> (processing: ProcessingMethod)
        ensures
            processing == self@.processing,
    {
        self.processing
    }

    /// How far the beans were roasted.
    pub fn roast(&self) -> (roast: Roast)
        ensures
            roast == self@.roast,
    {
        self.roast
    }

    /// The drink the coffee was tasted as.
    pub fn preparation(&self) -> (preparation: Preparation)
        ensures
            preparation == self@.preparation,
    {
        self.preparation
    }

    /// The rating, from 1 to 10.
    pub fn rating(&self) -> (rating: u8)
        ensures
            rating == self@.rating,
            rating_in_range(rating as int),
    {
        proof {
            use_type_invariant(self);
        }
        self.rating
    }

    /// The block the record is written as in the journal.
    pub fn to_plaintext(&self) -> (text: String)
        ensures
            text@ == self@.plaintext(),
            ends_with(text@, separator_line()),
    {
        let mut text = String::new();
        self.timestamp.push_text(&mut text);
        let ghost moment = text@;
        proof {
            reveal_strlit("\n");
        }
        text.append("\n");
        push_line(&mut text, "Brand: ", self.brand.as_str());
        push_line(&mut text, "Name: ", self.name.as_str());
        push_line(&mut text, "Origin: ", self.origin.as_str());
        push_line(&mut text, "Processing: ", self.processing.display_name());
        push_line(&mut text, "Roast: ", self.roast.display_name());
        push_line(&mut text, "Preparation: ", self.preparation.display_name());
        let ghost upto_rating = text@;
        text.append("Rating: ");
        push_decimal(&mut text, self.rating as u32);
        text.append("/10");
        text.append("\n");
        assert(text@ =~= upto_rating + labelled_line(
            "Rating: "@,
            decimal(self.rating as nat) + "/10"@,
        ));
        text.append("---\n");
        assert(text@ =~= self@.plaintext());
        proof {
            lemma_plaintext_ends_with_separator(self@);
        }
        text
    }
}

} // verus!
