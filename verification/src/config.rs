//! What one run is configured with: the asset triples to watch, the
//! investment that profits are measured on, the least profit worth
//! reporting, and the pause between two passes.

use vstd::prelude::*;
use crate::amount::Amount;
use crate::matrix::ASSETS;

verus! {

/// Why a configuration was turned away.
#[derive(Clone, Copy, Debug, PartialEq, Eq, Structural)]
pub enum ConfigError {
    /// The triple at this position does not name exactly three assets.
    InvalidTriple { position: usize },
    /// The investment is not a finite amount above zero.
    NonPositiveInvestment,
    /// The minimum profit ratio is not a finite amount above zero.
    NonPositiveMinProfitRatio,
    /// The table of token identifiers is not a JSON object of texts.
    UnreadableTokenTable,
    /// The table of token identifiers lacks the symbol at this position of
    /// the triple at this position.
    UnknownSymbol { triple: usize, position: usize },
}

/// The identifiers in a list, each as the text it holds.
pub open spec fn names(assets: Seq<String>) -> Seq<Seq<char>> {
    Seq::new(assets.len(), |i: int| assets[i]@)
}

/// Three asset identifiers in a fixed order: the assets of one rate matrix.
#[derive(Debug)]
pub struct AssetTriple {
    assets: Vec<String>,
}

impl AssetTriple {
    #[verifier::type_invariant]
    spec fn three_assets(self) -> bool {
        self.assets@.len() == ASSETS
    }

    /// The three identifiers.
    pub closed spec fn view(&self) -> Seq<Seq<char>> {
        names(self.assets@)
    }

    /// Makes a triple of a list of exactly three identifiers.
    pub fn new(assets: &Vec<String>) -> (r: Option<AssetTriple>)
        ensures
            match r {
                Some(triple) => assets@.len() == ASSETS && triple@ == names(assets@),
                None => assets@.len() != ASSETS,
            },
    {
        if assets.len() != ASSETS {
            return None;
        }
        let copy = copy_names(assets);
        let triple = AssetTriple { assets: copy };
        Some(triple)
    }

    /// The identifier at a position of the triple.
    pub fn asset(&self, position: usize) -> (r: Option<&String>)
        ensures
            self@.len() == ASSETS,
            match r {
                Some(name) => position < ASSETS && name@ == self@[position as int],
                None => position >= ASSETS,
            },
    {
        proof {
            use_type_invariant(self);
        }
        if position < self.assets.len() {
            Some(&self.assets[position])
        } else {
            None
        }
    }

    /// The identifiers that a list of matrix indices stands for, in the
    /// order of the list; none if an index lies outside the triple.
    pub fn assets_at(&self, indices: &Vec<usize>) -> (r: Option<Vec<String>>)
        ensures
            match r {
                Some(found) => {
                    &&& forall|k: int| 0 <= k < indices@.len() ==> indices@[k] < ASSETS
                    &&& names(found@) == assets_of(self@, indices@)
                },
                None => exists|k: int| 0 <= k < indices@.len() && indices@[k] >= ASSETS,
            },
    {
        proof {
            use_type_invariant(self);
        }
        let mut found: Vec<String> = Vec::new();
        let mut k: usize = 0;
        while k < indices.len()
            invariant
                k <= indices@.len(),
                self.assets@.len() == ASSETS,
                found@.len() == k,
                forall|n: int| 0 <= n < k ==> indices@[n] < ASSETS,
                forall|n: int| 0 <= n < k ==> (#[trigger] found@[n])@ == self.assets@[indices@[n] as int]@,
            decreases indices@.len() - k,
        {
            let index = indices[k];
            if index >= ASSETS {
                return None;
            }
            found.push(self.assets[index].clone());
            k += 1;
        }
        assert(names(found@) =~= assets_of(self@, indices@));
        Some(found)
    }
}

/// The identifiers at the given positions of a list.
pub open spec fn assets_of(triple: Seq<Seq<char>>, indices: Seq<usize>) -> Seq<Seq<char>> {
    Seq::new(indices.len(), |k: int| triple[indices[k] as int])
}

fn copy_names(assets: &Vec<String>) -> (r: Vec<String>)
    ensures
        r@.len() == assets@.len(),
        names(r@) == names(assets@),
{
    let mut copy: Vec<String> = Vec::new();
    let mut i: usize = 0;
    while i < assets.len()
        invariant
            i <= assets@.len(),
            copy@.len() == i,
            forall|n: int| 0 <= n < i ==> (#[trigger] copy@[n])@ == assets@[n]@,
        decreases assets@.len() - i,
    {
        copy.push(assets[i].clone());
        i += 1;
    }
    assert(names(copy@) =~= names(assets@));
    copy
}

/// A validated configuration.
#[derive(Debug)]
pub struct Config {
    triples: Vec<AssetTriple>,
    investment: Amount,
    min_profit_ratio: Amount,
    delay_seconds: u64,
}

/// A configuration as a mathematical value.
pub struct Settings {
    pub triples: Seq<Seq<Seq<char>>>,
    pub investment: Amount,
    pub min_profit_ratio: Amount,
    pub delay_seconds: u64,
}

impl Settings {
    /// Every triple names three assets, and the two amounts are finite and
    /// above zero.
    pub open spec fn sound(self) -> bool {
        &&& forall|i: int| 0 <= i < self.triples.len() ==> (#[trigger] self.triples[i]).len() == ASSETS
        &&& self.investment.positive_finite()
        &&& self.min_profit_ratio.positive_finite()
    }
}

/// The identifiers of each list of a list of lists.
pub open spec fn triple_names(triples: Seq<Vec<String>>) -> Seq<Seq<Seq<char>>> {
    Seq::new(triples.len(), |i: int| names(triples[i]@))
}

/// The fault for which a configuration is turned away, if it has one: the
/// first triple of a wrong length, else the investment, else the ratio.
pub open spec fn config_fault(settings: Settings) -> Option<ConfigError> {
    if exists|i: int| wrong_length_first_at(settings.triples, i) {
        Some(
            ConfigError::InvalidTriple {
                position: (choose|i: int| wrong_length_first_at(settings.triples, i)) as usize,
            },
        )
    } else if !settings.investment.positive_finite() {
        Some(ConfigError::NonPositiveInvestment)
    } else if !settings.min_profit_ratio.positive_finite() {
        Some(ConfigError::NonPositiveMinProfitRatio)
    } else {
        None
    }
}

/// The triple at `i` has a wrong length and none before it has.
pub open spec fn wrong_length_first_at(triples: Seq<Seq<Seq<char>>>, i: int) -> bool {
    &&& 0 <= i < triples.len()
    &&& triples[i].len() != ASSETS
    &&& forall|k: int| 0 <= k < i ==> (#[trigger] triples[k]).len() == ASSETS
}

/// The first triple of a wrong length is the fault of its configuration.
pub proof fn first_wrong_length_is_the_fault(settings: Settings, i: int)
    requires
        wrong_length_first_at(settings.triples, i),
    ensures
        config_fault(settings) == Some(ConfigError::InvalidTriple { position: i as usize }),
{
    let chosen = choose|k: int| wrong_length_first_at(settings.triples, k);
    if chosen < i {
        assert(settings.triples[chosen].len() == ASSETS);
    } else if i < chosen {
        assert(settings.triples[i].len() == ASSETS);
    }
}

/// A configuration without a fault is sound.
pub proof fn faultless_is_sound(settings: Settings)
    ensures
        config_fault(settings).is_none() <==> settings.sound(),
{
    if config_fault(settings).is_none() {
        assert forall|i: int| 0 <= i < settings.triples.len() implies (
        #[trigger] settings.triples[i]).len() == ASSETS by {
            if settings.triples[i].len() != ASSETS {
                first_wrong_length_exists(settings.triples, i);
            }
        }
    } else if settings.sound() {
        if exists|i: int| wrong_length_first_at(settings.triples, i) {
            let i = choose|i: int| wrong_length_first_at(settings.triples, i);
            assert(settings.triples[i].len() == ASSETS);
        }
    }
}

/// Where some triple has a wrong length, one of them is the first.
proof fn first_wrong_length_exists(triples: Seq<Seq<Seq<char>>>, i: int)
    requires
        0 <= i < triples.len(),
        triples[i].len() != ASSETS,
    ensures
        exists|k: int| wrong_length_first_at(triples, k),
    decreases i,
{
    if forall|k: int| 0 <= k < i ==> (#[trigger] triples[k]).len() == ASSETS {
        assert(wrong_length_first_at(triples, i));
    } else {
        let k = choose|k: int| 0 <= k < i && (#[trigger] triples[k]).len() != ASSETS;
        first_wrong_length_exists(triples, k);
    }
}

impl Config {
    #[verifier::type_invariant]
    spec fn checked(self) -> bool {
        self.investment.positive_finite() && self.min_profit_ratio.positive_finite()
    }

    pub closed spec fn view(&self) -> Settings {
        Settings {
            triples: Seq::new(self.triples@.len(), |i: int| self.triples@[i]@),
            investment: self.investment,
            min_profit_ratio: self.min_profit_ratio,
            delay_seconds: self.delay_seconds,
        }
    }

    /// Checks the settings of a run and keeps them.
    pub fn new(
        triples: &Vec<Vec<String>>,
        investment: Amount,
        min_profit_ratio: Amount,
        delay_seconds: u64,
    ) -> (r: Result<Config, ConfigError>)
        ensures
            match r {
                Ok(config) => {
                    &&& config@ == (Settings {
                        triples: triple_names(triples@),
                        investment,
                        min_profit_ratio,
                        delay_seconds,
                    })
                    &&& config_fault(config@).is_none()
                },
                Err(error) => config_fault(
                    Settings {
                        triples: triple_names(triples@),
                        investment,
                        min_profit_ratio,
                        delay_seconds,
                    },
                ) == Some(error),
            },
    {
        let ghost listed = triple_names(triples@);
        let mut kept: Vec<AssetTriple> = Vec::new();
        let mut i: usize = 0;
        while i < triples.len()
            invariant
                i <= triples@.len(),
                kept@.len() == i,
                listed == triple_names(triples@),
                forall|k: int| 0 <= k < i ==> (#[trigger] listed[k]).len() == ASSETS,
                forall|k: int| 0 <= k < i ==> (#[trigger] kept@[k])@ == listed[k],
            decreases triples@.len() - i,
        {
            assert(listed[i as int] == names(triples@[i as int]@));
            match AssetTriple::new(&triples[i]) {
                Some(triple) => {
                    kept.push(triple);
                },
                None => {
                    proof {
                        first_wrong_length_is_the_fault(
                            Settings { triples: listed, investment, min_profit_ratio, delay_seconds },
                            i as int,
                        );
                    }
                    return Err(ConfigError::InvalidTriple { position: i });
                },
            }
            i += 1;
        }
        proof {
            if exists|k: int| wrong_length_first_at(listed, k) {
                let k = choose|k: int| wrong_length_first_at(listed, k);
                assert(listed[k].len() == ASSETS);
            }
        }
        if !investment.is_positive_finite() {
            return Err(ConfigError::NonPositiveInvestment);
        }
        if !min_profit_ratio.is_positive_finite() {
            return Err(ConfigError::NonPositiveMinProfitRatio);
        }
        let config = Config { triples: kept, investment, min_profit_ratio, delay_seconds };
        assert(config@.triples =~= listed);
        Ok(config)
    }

    /// How many triples one pass scans.
    pub fn triple_count(&self) -> (r: usize)
        ensures
            r == self@.triples.len(),
    {
        self.triples.len()
    }

    /// The triple at a position of the list.
    pub fn triple(&self, position: usize) -> (r: Option<&AssetTriple>)
        ensures
            match r {
                Some(triple) => position < self@.triples.len() && triple@ == self@.triples[
                    position as int
                ],
                None => position >= self@.triples.len(),
            },
    {
        if position < self.triples.len() {
            Some(&self.triples[position])
        } else {
            None
        }
    }

    /// The amount that profits are measured on.
    pub fn investment(&self) -> (r: Amount)
        ensures
            r == self@.investment,
            r.positive_finite(),
    {
        proof {
            use_type_invariant(self);
        }
        self.investment
    }

    /// The least gain, as a fraction of the investment, worth reporting.
    pub fn min_profit_ratio(&self) -> (r: Amount)
        ensures
            r == self@.min_profit_ratio,
            r.positive_finite(),
    {
        proof {
            use_type_invariant(self);
        }
        self.min_profit_ratio
    }

    /// The pause between two passes, in seconds.
    pub fn delay_seconds(&self) -> (r: u64)
        ensures
            r == self@.delay_seconds,
    {
        self.delay_seconds
    }
}

} // verus!
