//! Limits on how fast a device may work: budgets of tokens that are used up by work
//! and fill up again with time.
//!
//! Time is the number of milliseconds that a clock of the caller shows; it is handed
//! in wherever it matters.
use vstd::prelude::*;

verus! {

/// What a token stands for.
#[derive(Copy, Clone, Debug, PartialEq, Eq, Structural)]
pub enum TokenType {
    /// A byte that is moved.
    Bytes,
    /// An operation that is carried out.
    Ops,
}

/// A budget of tokens.
#[derive(Copy, Clone, Debug, PartialEq, Eq, Structural)]
pub struct TokenBucket {
    /// Most tokens the budget can hold.
    pub size: u64,
    /// Tokens that can be used once, on top of the budget, and do not come back.
    pub one_time_burst: u64,
    /// Time in milliseconds in which an empty budget fills up.
    pub refill_time: u64,
    /// Tokens that the budget holds.
    pub budget: u64,
    /// When the budget was last filled up.
    pub last_update: u64,
}

impl TokenBucket {
    /// The tokens that can be used now.
    pub open spec fn spec_available(self) -> int {
        self.one_time_burst + self.budget
    }

    /// The tokens that have come back after `elapsed` milliseconds: the share of the
    /// size that the elapsed time is of the refill time, and all of them once the
    /// refill time is over.
    pub open spec fn spec_refilled(self, elapsed: int) -> int {
        if self.refill_time == 0 || elapsed >= self.refill_time {
            self.size as int
        } else {
            elapsed * self.size / (self.refill_time as int)
        }
    }

    /// The bucket at time `now`: tokens have come back, but the budget holds no more
    /// than its size. Time that runs backwards changes nothing.
    pub open spec fn spec_replenish(self, now: u64) -> TokenBucket {
        if now <= self.last_update {
            self
        } else {
            let filled = self.budget + self.spec_refilled(now - self.last_update);
            TokenBucket {
                budget: (if filled >= self.size {
                    self.size as int
                } else {
                    filled
                }) as u64,
                last_update: now,
                ..self
            }
        }
    }

    /// The bucket after `tokens` were used; the one-time burst is used up first.
    pub open spec fn spec_reduce(self, tokens: u64) -> TokenBucket {
        if tokens <= self.one_time_burst {
            TokenBucket { one_time_burst: (self.one_time_burst - tokens) as u64, ..self }
        } else {
            TokenBucket {
                one_time_burst: 0,
                budget: (self.budget - (tokens - self.one_time_burst)) as u64,
                ..self
            }
        }
    }

    /// True if the budget is in order: it holds no more than its size, and its size
    /// and the one-time burst together can be counted in 64 bits.
    pub open spec fn wf(self) -> bool {
        self.budget <= self.size && self.one_time_burst + self.size <= u64::MAX
    }

    /// Says whether the budget is in order.
    pub fn is_wf(&self) -> (b: bool)
        ensures
            b == self.wf(),
    {
        self.budget <= self.size && self.one_time_burst <= u64::MAX - self.size
    }

    /// A full bucket of the given size, with a one-time burst, that fills up in
    /// `refill_time` milliseconds; none if the size or the refill time is 0, which
    /// stands for no limit.
    pub fn new(size: u64, one_time_burst: u64, refill_time: u64, now: u64) -> (r: Option<Self>)
        ensures
            (size == 0 || refill_time == 0) ==> r is None,
            (size != 0 && refill_time != 0) ==> r == Some(
                TokenBucket {
                    size,
                    one_time_burst: if one_time_burst <= u64::MAX - size {
                        one_time_burst
                    } else {
                        (u64::MAX - size) as u64
                    },
                    refill_time,
                    budget: size,
                    last_update: now,
                },
            ) && r->Some_0.wf(),
    {
        if size == 0 || refill_time == 0 {
            return None;
        }
        let burst = if one_time_burst <= u64::MAX - size {
            one_time_burst
        } else {
            u64::MAX - size
        };
        Some(TokenBucket { size, one_time_burst: burst, refill_time, budget: size, last_update: now })
    }

    /// Lets the tokens come back that are due at time `now`.
    pub fn replenish(&mut self, now: u64)
        requires
            old(self).wf(),
        ensures
            final(self).wf(),
            *final(self) == old(self).spec_replenish(now),
    {
        if now <= self.last_update {
            return ;
        }
        let elapsed: u64 = now - self.last_update;
        let refilled: u64 = if self.refill_time == 0 || elapsed >= self.refill_time {
            self.size
        } else {
            proof {
                assert(elapsed * self.size <= u64::MAX * u64::MAX) by (nonlinear_arith)
                    requires
                        0 <= elapsed <= u64::MAX,
                        0 <= self.size <= u64::MAX,
                ;
            }
            let product: u128 = elapsed as u128 * self.size as u128;
            proof {
                assert(elapsed * self.size / (self.refill_time as int) <= self.size) by (nonlinear_arith)
                    requires
                        0 <= elapsed < self.refill_time,
                        0 <= self.size,
                ;
                assert(0 <= elapsed * self.size / (self.refill_time as int)) by (nonlinear_arith)
                    requires
                        0 <= elapsed,
                        0 <= self.size,
                        0 < self.refill_time,
                ;
                assert(elapsed * self.size <= u64::MAX * u64::MAX) by (nonlinear_arith)
                    requires
                        0 <= elapsed <= u64::MAX,
                        0 <= self.size <= u64::MAX,
                ;
            }
            (product / self.refill_time as u128) as u64
        };
        self.budget = if refilled >= self.size - self.budget {
            self.size
        } else {
            self.budget + refilled
        };
        self.last_update = now;
    }

    /// Uses `tokens` of the bucket if it holds that many; if it does not, the bucket
    /// stays as it is.
    pub fn reduce(&mut self, tokens: u64) -> (ok: bool)
        requires
            old(self).wf(),
        ensures
            final(self).wf(),
            ok == (tokens <= old(self).spec_available()),
            ok ==> *final(self) == old(self).spec_reduce(tokens),
            !ok ==> *final(self) == *old(self),
    {
        if tokens <= self.one_time_burst {
            self.one_time_burst = self.one_time_burst - tokens;
            true
        } else if tokens - self.one_time_burst <= self.budget {
            self.budget = self.budget - (tokens - self.one_time_burst);
            self.one_time_burst = 0;
            true
        } else {
            false
        }
    }

    /// Gives `tokens` back to the budget, which holds no more than its size.
    pub fn force_replenish(&mut self, tokens: u64)
        requires
            old(self).wf(),
        ensures
            final(self).wf(),
            *final(self) == (TokenBucket {
                budget: if old(self).budget + tokens >= old(self).size {
                    old(self).size
                } else {
                    (old(self).budget + tokens) as u64
                },
                ..*old(self)
            }),
    {
        self.budget = if tokens >= self.size - self.budget {
            self.size
        } else {
            self.budget + tokens
        };
    }
}

/// A change to one bucket of a limiter.
#[derive(Copy, Clone, Debug, PartialEq, Eq, Structural)]
pub enum BucketUpdate {
    /// The bucket stays as it is.
    Unchanged,
    /// The limit is lifted.
    Disabled,
    /// The bucket is replaced.
    Update(TokenBucket),
}

/// The bucket after an update.
pub open spec fn spec_apply_update(bucket: Option<TokenBucket>, update: BucketUpdate) -> Option<
    TokenBucket,
> {
    match update {
        BucketUpdate::Unchanged => bucket,
        BucketUpdate::Disabled => None,
        BucketUpdate::Update(b) => Some(b),
    }
}

/// Limits bytes and operations, each with a bucket of its own. A bucket that is
/// absent stands for no limit.
#[derive(Copy, Clone, Debug, PartialEq, Eq, Structural)]
pub struct RateLimiter {
    /// The budget of bytes.
    pub bandwidth: Option<TokenBucket>,
    /// The budget of operations.
    pub ops: Option<TokenBucket>,
    /// True while the limiter waits for its timer: work is held back.
    pub timer_active: bool,
}

impl RateLimiter {
    /// The bucket for a type of token.
    pub open spec fn spec_bucket(self, token_type: TokenType) -> Option<TokenBucket> {
        match token_type {
            TokenType::Bytes => self.bandwidth,
            TokenType::Ops => self.ops,
        }
    }

    /// True if the buckets of the limiter are in order.
    pub open spec fn wf(self) -> bool {
        (self.bandwidth matches Some(b) ==> b.wf()) && (self.ops matches Some(b) ==> b.wf())
    }

    /// Says whether the buckets of the limiter are in order. A limiter that a caller
    /// has put together by hand is to be asked before it is used.
    pub fn is_wf(&self) -> (b: bool)
        ensures
            b == self.wf(),
    {
        let bytes = match &self.bandwidth {
            Some(b) => b.is_wf(),
            None => true,
        };
        let ops = match &self.ops {
            Some(b) => b.is_wf(),
            None => true,
        };
        bytes && ops
    }

    /// True if `tokens` of the given type can be used at time `now`: the limiter is
    /// not waiting, and there is no limit or the bucket holds that many tokens.
    pub open spec fn spec_can_consume(self, tokens: u64, token_type: TokenType, now: u64) -> bool {
        !self.timer_active && match self.spec_bucket(token_type) {
            None => true,
            Some(b) => tokens <= b.spec_replenish(now).spec_available(),
        }
    }

    /// The limiter with the bucket for a type of token replaced.
    pub open spec fn spec_with_bucket(self, token_type: TokenType, bucket: Option<TokenBucket>) -> RateLimiter {
        match token_type {
            TokenType::Bytes => RateLimiter { bandwidth: bucket, ..self },
            TokenType::Ops => RateLimiter { ops: bucket, ..self },
        }
    }

    /// The limiter after `tokens` of the given type were asked for at time `now`. A
    /// limiter that waits stays as it is, and so does one without a limit for the
    /// type. Else the bucket is filled up to `now`; the tokens are taken if it holds
    /// that many, and if it does not the limiter starts to wait.
    pub open spec fn spec_after_consume(self, tokens: u64, token_type: TokenType, now: u64) -> RateLimiter {
        if self.timer_active {
            self
        } else {
            match self.spec_bucket(token_type) {
                None => self,
                Some(b) => {
                    let filled = b.spec_replenish(now);
                    if tokens <= filled.spec_available() {
                        self.spec_with_bucket(token_type, Some(filled.spec_reduce(tokens)))
                    } else {
                        RateLimiter {
                            timer_active: true,
                            ..self.spec_with_bucket(token_type, Some(filled))
                        }
                    }
                },
            }
        }
    }

    /// The limiter after `tokens` of the given type were given back.
    pub open spec fn spec_after_replenish(self, tokens: u64, token_type: TokenType) -> RateLimiter {
        match self.spec_bucket(token_type) {
            None => self,
            Some(b) => self.spec_with_bucket(
                token_type,
                Some(
                    TokenBucket {
                        budget: if b.budget + tokens >= b.size {
                            b.size
                        } else {
                            (b.budget + tokens) as u64
                        },
                        ..b
                    },
                ),
            ),
        }
    }

    /// A limiter with the given buckets that is not waiting.
    pub fn new(bandwidth: Option<TokenBucket>, ops: Option<TokenBucket>) -> (r: Self)
        ensures
            r == (RateLimiter { bandwidth, ops, timer_active: false }),
    {
        RateLimiter { bandwidth, ops, timer_active: false }
    }

    /// A limiter without limits.
    pub fn unlimited() -> (r: Self)
        ensures
            r == (RateLimiter { bandwidth: None, ops: None, timer_active: false }),
            r.wf(),
    {
        RateLimiter { bandwidth: None, ops: None, timer_active: false }
    }

    /// True while the limiter waits for its timer.
    pub fn is_blocked(&self) -> (b: bool)
        ensures
            b == self.timer_active,
    {
        self.timer_active
    }

    /// Uses `tokens` of the given type at time `now`.
    ///
    /// This succeeds, and the tokens are taken, if the limiter is not waiting and
    /// there is no limit or the bucket holds that many tokens. If the bucket holds
    /// too few, the limiter starts to wait for its timer and nothing is taken. While
    /// the limiter waits, nothing is taken and nothing else changes.
    pub fn consume(&mut self, tokens: u64, token_type: TokenType, now: u64) -> (ok: bool)
        requires
            old(self).wf(),
        ensures
            final(self).wf(),
            ok == old(self).spec_can_consume(tokens, token_type, now),
            *final(self) == old(self).spec_after_consume(tokens, token_type, now),
    {
        if self.timer_active {
            return false;
        }
        match token_type {
            TokenType::Bytes => match self.bandwidth {
                None => true,
                Some(bucket) => {
                    let mut b = bucket;
                    b.replenish(now);
                    let ok = b.reduce(tokens);
                    self.bandwidth = Some(b);
                    self.timer_active = !ok;
                    ok
                },
            },
            TokenType::Ops => match self.ops {
                None => true,
                Some(bucket) => {
                    let mut b = bucket;
                    b.replenish(now);
                    let ok = b.reduce(tokens);
                    self.ops = Some(b);
                    self.timer_active = !ok;
                    ok
                },
            },
        }
    }

    /// Gives `tokens` of the given type back, for work that was paid for and not
    /// done.
    pub fn manual_replenish(&mut self, tokens: u64, token_type: TokenType)
        requires
            old(self).wf(),
        ensures
            final(self).wf(),
            *final(self) == old(self).spec_after_replenish(tokens, token_type),
    {
        match token_type {
            TokenType::Bytes => match self.bandwidth {
                None => {},
                Some(bucket) => {
                    let mut b = bucket;
                    b.force_replenish(tokens);
                    self.bandwidth = Some(b);
                },
            },
            TokenType::Ops => match self.ops {
                None => {},
                Some(bucket) => {
                    let mut b = bucket;
                    b.force_replenish(tokens);
                    self.ops = Some(b);
                },
            },
        }
    }

    /// Takes note that the timer has fired: the limiter waits no longer.
    pub fn event_handler(&mut self)
        ensures
            *final(self) == (RateLimiter { timer_active: false, ..*old(self) }),
    {
        self.timer_active = false;
    }

    /// True if the limiter lets a piece of work through that costs one operation and
    /// `bytes` bytes at time `now`.
    pub open spec fn spec_admits(self, bytes: u64, now: u64) -> bool {
        self.spec_can_consume(1, TokenType::Ops, now) && self.spec_after_consume(
            1,
            TokenType::Ops,
            now,
        ).spec_can_consume(bytes, TokenType::Bytes, now)
    }

    /// The limiter after it was asked for a piece of work of one operation and
    /// `bytes` bytes at time `now`: first for the operation, then for the bytes. If
    /// the bytes are held back, the operation is given back.
    pub open spec fn spec_after_request(self, bytes: u64, now: u64) -> RateLimiter {
        let first = self.spec_after_consume(1, TokenType::Ops, now);
        if !self.spec_can_consume(1, TokenType::Ops, now) {
            first
        } else if !first.spec_can_consume(bytes, TokenType::Bytes, now) {
            first.spec_after_consume(bytes, TokenType::Bytes, now).spec_after_replenish(
                1,
                TokenType::Ops,
            )
        } else {
            first.spec_after_consume(bytes, TokenType::Bytes, now)
        }
    }

    /// Asks for one operation and `bytes` bytes at time `now`, and says whether the
    /// work may go on. Work that is held back has taken nothing from the buckets.
    pub fn consume_request(&mut self, bytes: u64, now: u64) -> (ok: bool)
        requires
            old(self).wf(),
        ensures
            final(self).wf(),
            ok == old(self).spec_admits(bytes, now),
            *final(self) == old(self).spec_after_request(bytes, now),
    {
        if !self.consume(1, TokenType::Ops, now) {
            return false;
        }
        if !self.consume(bytes, TokenType::Bytes, now) {
            self.manual_replenish(1, TokenType::Ops);
            return false;
        }
        true
    }

    /// Changes the buckets of the limiter.
    pub fn update_buckets(&mut self, bytes: BucketUpdate, ops: BucketUpdate)
        ensures
            *final(self) == (RateLimiter {
                bandwidth: spec_apply_update(old(self).bandwidth, bytes),
                ops: spec_apply_update(old(self).ops, ops),
                ..*old(self)
            }),
    {
        match bytes {
            BucketUpdate::Unchanged => {},
            BucketUpdate::Disabled => {
                self.bandwidth = None;
            },
            BucketUpdate::Update(b) => {
                self.bandwidth = Some(b);
            },
        }
        match ops {
            BucketUpdate::Unchanged => {},
            BucketUpdate::Disabled => {
                self.ops = None;
            },
            BucketUpdate::Update(b) => {
                self.ops = Some(b);
            },
        }
    }
}

/// Work that needs `n` bytes and `n` operations gets through only when both buckets
/// hold at least `n` tokens; a bucket that is absent holds enough for everything.
pub proof fn lemma_consume_needs_tokens(limiter: RateLimiter, n: u64, now: u64)
    requires
        limiter.spec_can_consume(n, TokenType::Bytes, now),
        limiter.spec_can_consume(n, TokenType::Ops, now),
    ensures
        limiter.bandwidth matches Some(b) ==> n <= b.spec_replenish(now).spec_available(),
        limiter.ops matches Some(b) ==> n <= b.spec_replenish(now).spec_available(),
        !limiter.timer_active,
{
}

} // verus!
