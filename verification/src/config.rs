//! Configurations: what is asked of the display, what it offers, and the
//! choice among the offers.

use crate::error::HeadlessError;
use vstd::prelude::*;

verus! {

/// What a configuration must support to be offered.
#[derive(Clone, Copy, Debug, PartialEq, Eq, Hash, Structural)]
pub struct ConfigRequest {
    /// Bits of alpha in the colour buffer.
    pub alpha_size: u8,
    /// The configuration must be able to draw to a window.
    pub window: bool,
    /// The configuration must be able to draw to a pixel buffer.
    pub pbuffer: bool,
    /// The configuration must be able to draw to a pixmap.
    pub pixmap: bool,
}

/// What the display tells about one configuration that it offers.
#[derive(Clone, Copy, Debug, PartialEq, Eq, Hash, Structural)]
pub struct ConfigInfo {
    /// The number of samples per pixel when multisampling.
    pub samples: u8,
}

/// The request that surfaceless rendering makes: eight bits of alpha and no
/// kind of drawable surface.
pub open spec fn headless_request() -> ConfigRequest {
    ConfigRequest { alpha_size: 8, window: false, pbuffer: false, pixmap: false }
}

impl ConfigRequest {
    /// Whether the request asks for no drawable surface at all.
    pub open spec fn surfaceless(self) -> bool {
        !self.window && !self.pbuffer && !self.pixmap
    }

    /// The request of a headless acquisition.
    pub fn headless() -> (request: ConfigRequest)
        ensures
            request == headless_request(),
            request.alpha_size == 8,
            request.surfaceless(),
    {
        ConfigRequest { alpha_size: 8, window: false, pbuffer: false, pixmap: false }
    }

    /// Tells whether the request asks for no drawable surface at all.
    pub fn is_surfaceless(&self) -> (b: bool)
        ensures
            b == self.surfaceless(),
    {
        !self.window && !self.pbuffer && !self.pixmap
    }
}

/// `i` is the position of the best offer: no offer has more samples, and
/// every offer before it has fewer.
pub open spec fn is_best(configs: Seq<ConfigInfo>, i: int) -> bool {
    &&& 0 <= i < configs.len()
    &&& forall|j: int| 0 <= j < configs.len() ==> configs[j].samples <= configs[i].samples
    &&& forall|j: int| 0 <= j < i ==> configs[j].samples < configs[i].samples
}

/// The position of the best offer of a non-empty list.
pub open spec fn best_config(configs: Seq<ConfigInfo>) -> int {
    choose|i: int| is_best(configs, i)
}

/// At most one position is the best one.
pub proof fn lemma_best_unique(configs: Seq<ConfigInfo>, i: int, j: int)
    requires
        is_best(configs, i),
        is_best(configs, j),
    ensures
        i == j,
{
    if i < j {
        assert(configs[i].samples < configs[j].samples);
        assert(configs[j].samples <= configs[i].samples);
    } else if j < i {
        assert(configs[j].samples < configs[i].samples);
        assert(configs[i].samples <= configs[j].samples);
    }
}

/// Every non-empty list has a best position.
pub proof fn lemma_best_exists(configs: Seq<ConfigInfo>)
    requires
        configs.len() > 0,
    ensures
        is_best(configs, best_config(configs)),
    decreases configs.len(),
{
    if configs.len() == 1 {
        assert(is_best(configs, 0));
    } else {
        let front = configs.drop_last();
        lemma_best_exists(front);
        let b = best_config(front);
        let last = configs.len() - 1;
        if configs[last].samples > front[b].samples {
            assert forall|j: int| 0 <= j < last implies configs[j].samples
                < configs[last].samples by {
                assert(front[j].samples <= front[b].samples);
            }
            assert(is_best(configs, last));
        } else {
            assert forall|j: int| 0 <= j < configs.len() implies configs[j].samples
                <= configs[b].samples by {
                if j < last {
                    assert(front[j].samples <= front[b].samples);
                }
            }
            assert forall|j: int| 0 <= j < b implies configs[j].samples
                < configs[b].samples by {
                assert(front[j].samples < front[b].samples);
            }
            assert(is_best(configs, b));
        }
    }
}

/// A position that is the best one is the one that `best_config` names.
pub proof fn lemma_best_is_chosen(configs: Seq<ConfigInfo>, i: int)
    requires
        is_best(configs, i),
    ensures
        best_config(configs) == i,
{
    lemma_best_unique(configs, i, best_config(configs));
}

/// Chooses the configuration to create the context with: the one with the
/// most samples, and among several with the most, the one listed first.
/// An empty list is a failure.
pub fn select_config(configs: &Vec<ConfigInfo>) -> (choice: Result<usize, HeadlessError>)
    ensures
        configs@.len() == 0 ==> choice == Err::<usize, HeadlessError>(
            HeadlessError::NoConfigsAvailable,
        ),
        configs@.len() > 0 ==> choice is Ok,
        choice matches Ok(i) ==> is_best(configs@, i as int) && best_config(configs@) == i,
{
    if configs.len() == 0 {
        return Err(HeadlessError::NoConfigsAvailable);
    }
    let mut best: usize = 0;
    let mut i: usize = 1;
    while i < configs.len()
        invariant
            1 <= i <= configs@.len(),
            best < i,
            forall|j: int| 0 <= j < i ==> configs@[j].samples <= configs@[best as int].samples,
            forall|j: int| 0 <= j < best ==> configs@[j].samples < configs@[best as int].samples,
        decreases configs@.len() - i,
    {
        if configs[i].samples > configs[best].samples {
            best = i;
        }
        i += 1;
    }
    proof {
        lemma_best_is_chosen(configs@, best as int);
    }
    Ok(best)
}

} // verus!
