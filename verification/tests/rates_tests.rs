use evolia::rates::{
    AdjectiveTypeRates, AdverbTypeRates, ConjunctionTypeRates, DeterminerTypeRates, NounTypeRates,
    PrepositionTypeRates, Rates, VerbTypeRates, WordTypeRates,
};
use evolia::SCALE;

fn word_rates(noun: u32, verb: u32) -> WordTypeRates {
    WordTypeRates {
        noun,
        verb,
        adverb: 0,
        adjective: 0,
        preposition: 0,
        determiner: 0,
        conjunction: 0,
    }
}

#[test]
fn word_rates_total_sums_fields() {
    let rates = WordTypeRates {
        noun: 300_000,
        verb: 200_000,
        adverb: 100_000,
        adjective: 100_000,
        preposition: 100_000,
        determiner: 100_000,
        conjunction: 100_000,
    };
    assert_eq!(rates.total(), 1_000_000);
    assert!(rates.add_up());
    assert!(rates.add_up_strict());
}

#[test]
fn floor_based_check_accepts_totals_up_to_two() {
    // The acceptance rule floors the total in whole units, so 1.7 passes the
    // floor-based check while the strict check refuses anything above 1.0.
    let over_one = word_rates(900_000, 800_000);
    assert_eq!(over_one.total(), 1_700_000);
    assert!(over_one.add_up());
    assert!(!over_one.add_up_strict());

    let exactly_two = word_rates(SCALE as u32, SCALE as u32);
    assert_eq!(exactly_two.total(), 2_000_000);
    assert!(!exactly_two.add_up());

    let just_under_two = word_rates(SCALE as u32, SCALE as u32 - 1);
    assert!(just_under_two.add_up());
    assert!(!just_under_two.add_up_strict());
}

#[test]
fn strict_check_boundary() {
    let exactly_one = word_rates(SCALE as u32, 0);
    assert!(exactly_one.add_up_strict());
    let just_over_one = word_rates(SCALE as u32, 1);
    assert!(!just_over_one.add_up_strict());
    assert!(just_over_one.add_up());
}

#[test]
fn noun_rates_total_and_checks() {
    let rates = NounTypeRates {
        common: 400_000,
        proper: 100_000,
        concrete: 100_000,
        abstractness: 100_000,
        countable: 100_000,
        uncountable: 100_000,
        collective: 100_000,
    };
    assert_eq!(rates.total(), 1_000_000);
    assert!(rates.add_up());
    assert!(rates.add_up_strict());
}

#[test]
fn adjective_rates_total_and_checks() {
    let rates = AdjectiveTypeRates {
        interrogative: 100_000,
        distributive: 100_000,
        numeral: 100_000,
        proper: 100_000,
        descriptive: 500_000,
        possessive: 100_000,
        quantitative: 500_000,
        demonstrative: 100_000,
    };
    assert_eq!(rates.total(), 1_600_000);
    assert!(rates.add_up());
    assert!(!rates.add_up_strict());
}

#[test]
fn verb_rates_total_and_checks() {
    let rates = VerbTypeRates {
        action: 250_000,
        transitive: 250_000,
        intransitive: 250_000,
        auxiliary: 250_000,
        linking: 0,
        modal: 0,
        regular: 0,
        irregular: 0,
    };
    assert_eq!(rates.total(), 1_000_000);
    assert!(rates.add_up());
    assert!(rates.add_up_strict());
}

#[test]
fn adverb_rates_total_and_checks() {
    let rates = AdverbTypeRates {
        time: 2_000_000,
        frequency: 0,
        place: 0,
        degree: 0,
        manner: 0,
        conjunctive: 0,
    };
    assert_eq!(rates.total(), 2_000_000);
    assert!(!rates.add_up());
}

#[test]
fn preposition_rates_total_and_checks() {
    let rates = PrepositionTypeRates {
        place: 250_000,
        time: 250_000,
        movement: 250_000,
        purpose: 250_000,
    };
    assert_eq!(rates.total(), 1_000_000);
    assert!(rates.add_up());
    assert!(rates.add_up_strict());
}

#[test]
fn determiner_rates_total_and_checks() {
    let rates = DeterminerTypeRates {
        article: 125_000,
        demonstrative: 125_000,
        distributive: 125_000,
        interrogative: 125_000,
        possessive: 125_000,
        quantifier: 125_000,
        relative: 125_000,
        negative: 125_000,
    };
    assert_eq!(rates.total(), 1_000_000);
    assert!(rates.add_up());
    assert!(rates.add_up_strict());
}

#[test]
fn conjunction_rates_total_and_checks() {
    let rates = ConjunctionTypeRates {
        coordinating: 500_000,
        subordinating: 400_000,
        correlative: 200_000,
    };
    assert_eq!(rates.total(), 1_100_000);
    assert!(rates.add_up());
    assert!(!rates.add_up_strict());
}
