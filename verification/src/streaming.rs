//! Streaming pipeline: batching, optional compression, circuit-breaker
//! gated dispatch, and offline buffering of batches that could not be
//! delivered.
//!
//! The pipeline core is a state machine over plain values.  The
//! surrounding task hands in packets, tells the core when the batch
//! timeout fired or the channel closed, performs the transport sends it is
//! told to make, and reports every outcome back; all decisions are made
//! and checked here.

use std::io::Write;
use vstd::prelude::*;
use crate::resilience::{
    CircuitBreaker, CircuitState, OfflineBuffer, ResilienceConfig, BreakerModel,
    spec_record_failure, spec_record_success, spec_try_half_open,
};
use crate::transports::TransportError;
use crate::types::{TelemetryPacket, TelemetryPacketModel, SensorReadingModel, Timestamp};
use crate::types::spec_readings;
use crate::wire::{batch_to_json, spec_batch_json, spec_packets, string_utf8_bytes};

verus! {

/// Error type for streaming pipeline operations.
#[derive(Debug)]
pub enum StreamingError {
    /// A transport send failed.
    Transport(TransportError),
    /// The ingestion channel is closed.
    ChannelClosed,
    /// Compression failed, with the failure message.
    CompressionFailed(String),
    /// A resilience-layer failure, with its message.
    Resilience(String),
}

/// Streaming pipeline configuration.
#[derive(Debug, Clone, Copy, PartialEq, Eq, Structural)]
pub struct PipelineConfig {
    /// Max packets per batch before forced send.
    pub batch_size: usize,
    /// Max time to wait before sending a batch (seconds).
    pub batch_timeout_secs: u64,
    /// Enable gzip compression on batches.
    pub enable_compression: bool,
    /// Channel capacity (bounded buffer).
    pub channel_capacity: usize,
    /// Enable resilience features (retry, buffering, circuit breaker).
    pub enable_resilience: bool,
}

impl Default for PipelineConfig {
    fn default() -> (r: PipelineConfig)
        ensures
            r == (PipelineConfig {
                batch_size: 10usize,
                batch_timeout_secs: 5u64,
                enable_compression: true,
                channel_capacity: 256usize,
                enable_resilience: true,
            }),
    {
        PipelineConfig {
            batch_size: 10,
            batch_timeout_secs: 5,
            enable_compression: true,
            channel_capacity: 256,
            enable_resilience: true,
        }
    }
}

/// Compression ratio in parts per thousand: the compressed size over the
/// uncompressed size, 1000 when the uncompressed size is zero, capped at
/// the largest representable value.
pub open spec fn spec_ratio_permille(compressed: int, uncompressed: int) -> int {
    if uncompressed == 0 {
        1000
    } else if compressed * 1000 / uncompressed > u64::MAX {
        u64::MAX as int
    } else {
        compressed * 1000 / uncompressed
    }
}

/// Compressed batch metadata.
#[derive(Debug, Clone)]
pub struct CompressedBatch {
    /// Number of packets in this batch.
    pub packet_count: usize,
    /// Compressed size in bytes.
    pub compressed_size: usize,
    /// Uncompressed size in bytes.
    pub uncompressed_size: usize,
    /// When the batch was created.
    pub created_at: Timestamp,
}

impl CompressedBatch {
    /// Compression ratio in parts per thousand (500 means the compressed
    /// form is half the size of the uncompressed form); 1000 when the
    /// uncompressed size is zero, so an empty batch counts as uncompressed.
    pub fn compression_ratio_permille(&self) -> (r: u64)
        ensures
            r == spec_ratio_permille(self.compressed_size as int, self.uncompressed_size as int),
    {
        if self.uncompressed_size == 0 {
            1000
        } else {
            let v: u128 = (self.compressed_size as u128) * 1000 / (self.uncompressed_size as u128);
            if v > u64::MAX as u128 {
                u64::MAX
            } else {
                v as u64
            }
        }
    }
}

/// What gzip makes of a byte string, at the default compression level.
pub uninterp spec fn gzip_of(data: Seq<u8>) -> Seq<u8>;

/// Relies on flate2's `write::GzEncoder` (construction, `write_all`,
/// `finish`): it produces the gzip compression of its input at the given
/// level, with a reproducible header (zero timestamp, fixed
/// operating-system byte), so the output is a function of the input alone.
#[verifier::external_body]
fn gzip_compress(data: &Vec<u8>) -> (r: Result<Vec<u8>, String>)
    ensures
        r matches Ok(v) ==> v@ == gzip_of(data@),
{
    let mut encoder = flate2::write::GzEncoder::new(Vec::new(), flate2::Compression::default());
    if let Err(e) = encoder.write_all(data.as_slice()) {
        return Err(e.to_string());
    }
    match encoder.finish() {
        Ok(v) => Ok(v),
        Err(e) => Err(e.to_string()),
    }
}

// ---------------------------------------------------------------------
// Batch accumulation
// ---------------------------------------------------------------------

/// In-progress batch of packets between flush triggers.
#[derive(Debug)]
pub struct BatchAccumulator {
    batch: Vec<TelemetryPacket>,
    batch_size: usize,
}

impl View for BatchAccumulator {
    type V = Seq<TelemetryPacketModel>;

    closed spec fn view(&self) -> Seq<TelemetryPacketModel> {
        spec_packets(self.batch@)
    }
}

impl BatchAccumulator {
    /// The count that triggers a flush.
    pub closed spec fn spec_batch_size(&self) -> usize {
        self.batch_size
    }

    /// A new empty accumulator flushing at `batch_size` packets.
    pub fn new(batch_size: usize) -> (r: BatchAccumulator)
        ensures
            r@ == Seq::<TelemetryPacketModel>::empty(),
            r.spec_batch_size() == batch_size,
    {
        let r = BatchAccumulator { batch: Vec::new(), batch_size };
        proof {
            assert(r@ =~= Seq::<TelemetryPacketModel>::empty());
        }
        r
    }

    /// Number of packets currently accumulated.
    pub fn len(&self) -> (r: usize)
        ensures
            r == self@.len(),
    {
        self.batch.len()
    }

    /// Accept one packet.  When the accumulated count reaches the batch
    /// size the whole batch is handed back, in arrival order, and the
    /// accumulator starts over empty; otherwise the packet is kept.
    pub fn offer(&mut self, packet: TelemetryPacket) -> (r: Option<Vec<TelemetryPacket>>)
        requires
            old(self)@.len() < usize::MAX,
        ensures
            final(self).spec_batch_size() == old(self).spec_batch_size(),
            old(self)@.len() + 1 >= old(self).spec_batch_size() ==> (r matches Some(b)
                && spec_packets(b@) == old(self)@.push(packet@) && final(self)@ == Seq::<
                TelemetryPacketModel,
            >::empty()),
            old(self)@.len() + 1 < old(self).spec_batch_size() ==> r is None && final(self)@
                == old(self)@.push(packet@),
    {
        let ghost m0 = self@;
        self.batch.push(packet);
        proof {
            assert(self@ =~= m0.push(self.batch@.last()@));
        }
        if self.batch.len() >= self.batch_size {
            let mut out: Vec<TelemetryPacket> = Vec::new();
            core::mem::swap(&mut out, &mut self.batch);
            proof {
                assert(self@ =~= Seq::<TelemetryPacketModel>::empty());
            }
            Option::Some(out)
        } else {
            Option::None
        }
    }

    /// Flush whatever has accumulated (on batch timeout or channel
    /// closure): the partial batch is handed back in arrival order, or
    /// nothing when the batch is empty.
    pub fn take_batch(&mut self) -> (r: Option<Vec<TelemetryPacket>>)
        ensures
            final(self).spec_batch_size() == old(self).spec_batch_size(),
            final(self)@ == Seq::<TelemetryPacketModel>::empty(),
            old(self)@.len() == 0 ==> r is None,
            old(self)@.len() > 0 ==> (r matches Some(b) && spec_packets(b@) == old(self)@),
    {
        if self.batch.is_empty() {
            Option::None
        } else {
            let mut out: Vec<TelemetryPacket> = Vec::new();
            core::mem::swap(&mut out, &mut self.batch);
            proof {
                assert(self@ =~= Seq::<TelemetryPacketModel>::empty());
            }
            Option::Some(out)
        }
    }
}

/// One accumulator step at the specification level: the new batch
/// contents, and the flushed batch if the step flushed.
pub open spec fn spec_offer_step(
    b: Seq<TelemetryPacketModel>,
    size: nat,
    p: TelemetryPacketModel,
) -> (Seq<TelemetryPacketModel>, Option<Seq<TelemetryPacketModel>>) {
    if b.len() + 1 >= size {
        (Seq::<TelemetryPacketModel>::empty(), Option::Some(b.push(p)))
    } else {
        (b.push(p), Option::None)
    }
}

/// Folding a stream of packets through the accumulator, collecting every
/// flushed batch in order.
pub open spec fn spec_offer_all(
    b: Seq<TelemetryPacketModel>,
    size: nat,
    ps: Seq<TelemetryPacketModel>,
) -> (Seq<TelemetryPacketModel>, Seq<Seq<TelemetryPacketModel>>)
    decreases ps.len(),
{
    if ps.len() == 0 {
        (b, Seq::<Seq<TelemetryPacketModel>>::empty())
    } else {
        let step = spec_offer_step(b, size, ps[0]);
        let rest = spec_offer_all(step.0, size, ps.skip(1));
        match step.1 {
            Option::Some(flushed) => (rest.0, seq![flushed] + rest.1),
            Option::None => rest,
        }
    }
}

/// Offering fewer packets than are missing from a batch flushes nothing;
/// the packets accumulate in order.
pub proof fn lemma_batch_accumulates(
    b: Seq<TelemetryPacketModel>,
    size: nat,
    ps: Seq<TelemetryPacketModel>,
)
    requires
        b.len() + ps.len() < size,
    ensures
        spec_offer_all(b, size, ps) == ((b + ps), Seq::<Seq<TelemetryPacketModel>>::empty()),
    decreases ps.len(),
{
    if ps.len() == 0 {
        assert(b + ps =~= b);
    } else {
        lemma_batch_accumulates(b.push(ps[0]), size, ps.skip(1));
        assert(b.push(ps[0]) + ps.skip(1) =~= b + ps);
    }
}

/// Submitting exactly `size` packets into an empty accumulator triggers
/// exactly one flush, whose batch is exactly those packets in order, and
/// leaves the accumulator empty.
pub proof fn lemma_batch_flushes_once(size: nat, ps: Seq<TelemetryPacketModel>)
    requires
        size >= 1,
        ps.len() == size,
    ensures
        spec_offer_all(Seq::<TelemetryPacketModel>::empty(), size, ps) == (
            Seq::<TelemetryPacketModel>::empty(),
            seq![ps],
        ),
{
    lemma_batch_fills(Seq::<TelemetryPacketModel>::empty(), size, ps);
    assert(Seq::<TelemetryPacketModel>::empty() + ps =~= ps);
}

/// Generalized filling step: offering exactly the packets missing from a
/// batch flushes once, with the accumulated batch completed in order.
proof fn lemma_batch_fills(
    b: Seq<TelemetryPacketModel>,
    size: nat,
    ps: Seq<TelemetryPacketModel>,
)
    requires
        ps.len() >= 1,
        b.len() + ps.len() == size,
    ensures
        spec_offer_all(b, size, ps) == (
            Seq::<TelemetryPacketModel>::empty(),
            seq![b + ps],
        ),
    decreases ps.len(),
{
    if ps.len() == 1 {
        assert(spec_offer_step(b, size, ps[0]).1 == Option::Some(b.push(ps[0])));
        assert(b.push(ps[0]) =~= b + ps);
        assert(spec_offer_all(Seq::<TelemetryPacketModel>::empty(), size, ps.skip(1)) == (
            Seq::<TelemetryPacketModel>::empty(),
            Seq::<Seq<TelemetryPacketModel>>::empty(),
        ));
        assert(spec_offer_all(b, size, ps).1 == seq![b.push(ps[0])] + Seq::<
            Seq<TelemetryPacketModel>,
        >::empty());
        assert(seq![b.push(ps[0])] + Seq::<Seq<TelemetryPacketModel>>::empty() =~= seq![b + ps]);
    } else {
        lemma_batch_fills(b.push(ps[0]), size, ps.skip(1));
        assert(b.push(ps[0]) + ps.skip(1) =~= b + ps);
    }
}

// ---------------------------------------------------------------------
// Dispatch bookkeeping
// ---------------------------------------------------------------------

/// Append items to a bounded buffer in order, silently skipping items once
/// the capacity is reached (a full offline buffer drops, and the driver
/// counts the loss rather than fail the batch).
pub open spec fn spec_push_capped(
    buf: Seq<TelemetryPacketModel>,
    items: Seq<TelemetryPacketModel>,
    cap: nat,
) -> Seq<TelemetryPacketModel>
    decreases items.len(),
{
    if items.len() == 0 {
        buf
    } else if buf.len() < cap {
        spec_push_capped(buf.push(items[0]), items.skip(1), cap)
    } else {
        spec_push_capped(buf, items.skip(1), cap)
    }
}

/// While the buffer has room for the whole batch, a capped append adds
/// exactly the batch, in order: the buffer length then grows by the batch
/// size, so it equals the sum of the packets of all batches routed to it.
/// (A full buffer drops the overflow instead, visibly in the length.)
pub proof fn lemma_push_capped_within_capacity(
    buf: Seq<TelemetryPacketModel>,
    items: Seq<TelemetryPacketModel>,
    cap: nat,
)
    requires
        buf.len() + items.len() <= cap,
    ensures
        spec_push_capped(buf, items, cap) == buf + items,
    decreases items.len(),
{
    if items.len() == 0 {
        assert(buf + items =~= buf);
    } else {
        lemma_push_capped_within_capacity(buf.push(items[0]), items.skip(1), cap);
        assert(buf.push(items[0]) + items.skip(1) =~= buf + items);
    }
}

/// Number of `false` entries in a sequence of send outcomes.
pub open spec fn spec_count_false(s: Seq<bool>) -> nat
    decreases s.len(),
{
    if s.len() == 0 {
        0
    } else {
        spec_count_false(s.drop_last()) + (if s.last() {
            0nat
        } else {
            1nat
        })
    }
}

/// The breaker after `n` failures recorded at the same instant.
pub open spec fn spec_failures_n(b: BreakerModel, n: nat, now_ms: u64) -> BreakerModel
    decreases n,
{
    if n == 0 {
        b
    } else {
        spec_failures_n(spec_record_failure(b, now_ms), (n - 1) as nat, now_ms)
    }
}

/// Folding one more failure commutes with the fold.
pub proof fn lemma_failures_n_snoc(b: BreakerModel, n: nat, now_ms: u64)
    ensures
        spec_failures_n(b, n + 1, now_ms) == spec_record_failure(
            spec_failures_n(b, n, now_ms),
            now_ms,
        ),
    decreases n,
{
    assert(spec_failures_n(b, n + 1, now_ms) == spec_failures_n(
        spec_record_failure(b, now_ms),
        n,
        now_ms,
    ));
    if n > 0 {
        lemma_failures_n_snoc(spec_record_failure(b, now_ms), (n - 1) as nat, now_ms);
    }
}

/// Concatenation of all readings of a batch, in batch order.
pub open spec fn spec_concat_readings(v: Seq<TelemetryPacketModel>) -> Seq<SensorReadingModel>
    decreases v.len(),
{
    if v.len() == 0 {
        Seq::<SensorReadingModel>::empty()
    } else {
        v[0].sensor_readings + spec_concat_readings(v.skip(1))
    }
}

/// The streaming pipeline core: the accumulator, the circuit breaker and
/// the offline buffer, with every decision the driving task must follow.
#[derive(Debug)]
pub struct PipelineDriver {
    config: PipelineConfig,
    accumulator: BatchAccumulator,
    breaker: Option<CircuitBreaker>,
    buffer: Option<OfflineBuffer>,
}

impl PipelineDriver {
    /// Configuration of this pipeline.
    pub closed spec fn spec_config(&self) -> PipelineConfig {
        self.config
    }

    /// Model of the circuit breaker, when resilience is enabled.
    pub closed spec fn spec_breaker(&self) -> Option<BreakerModel> {
        match self.breaker {
            Option::Some(cb) => Option::Some(cb@),
            Option::None => Option::None,
        }
    }

    /// Contents of the offline buffer, when resilience is enabled.
    pub closed spec fn spec_buffer(&self) -> Option<Seq<TelemetryPacketModel>> {
        match self.buffer {
            Option::Some(ref b) => Option::Some(b@),
            Option::None => Option::None,
        }
    }

    /// Capacity of the offline buffer, when resilience is enabled.
    pub closed spec fn spec_buffer_cap(&self) -> nat {
        match self.buffer {
            Option::Some(ref b) => b.spec_max_size() as nat,
            Option::None => 0,
        }
    }

    /// Contents of the in-progress batch.
    pub closed spec fn spec_batch(&self) -> Seq<TelemetryPacketModel> {
        self.accumulator@
    }

    /// Well-formedness: the breaker and the buffer exist together, the
    /// breaker is well formed, the buffer within capacity, and the
    /// accumulator flushes at the configured size.
    pub open spec fn wf(&self) -> bool {
        &&& (self.spec_breaker() is Some <==> self.spec_buffer() is Some)
        &&& (self.spec_breaker() matches Some(b) ==> b.wf())
        &&& (self.spec_buffer() matches Some(v) ==> v.len() <= self.spec_buffer_cap())
        &&& self.spec_accumulator_size() == self.spec_config().batch_size
    }

    /// The accumulator's flush size.
    pub closed spec fn spec_accumulator_size(&self) -> usize {
        self.accumulator.spec_batch_size()
    }

    /// A new pipeline core.  With resilience enabled, the circuit breaker
    /// and the offline buffer are created from the default resilience
    /// configuration, as the pipeline itself does not take a resilience
    /// configuration of its own.
    pub fn new(config: PipelineConfig) -> (r: PipelineDriver)
        ensures
            r.spec_config() == config,
            r.spec_batch() == Seq::<TelemetryPacketModel>::empty(),
            config.enable_resilience ==> (r.spec_breaker() matches Some(b) && b.state
                == CircuitState::Closed && b.failure_count == 0 && b.success_count == 0
                && b.failure_threshold == 5 && b.half_open_timeout_ms == 30000
                && b.last_open_time is None),
            config.enable_resilience ==> (r.spec_buffer() matches Some(v) && v.len() == 0
                && r.spec_buffer_cap() == 1000),
            !config.enable_resilience ==> r.spec_breaker() is None && r.spec_buffer() is None,
            r.wf(),
    {
        let (breaker, buffer) = if config.enable_resilience {
            let rc = ResilienceConfig::default();
            (
                Option::Some(CircuitBreaker::new(rc.failure_threshold, rc.half_open_timeout_secs)),
                Option::Some(OfflineBuffer::new(rc.buffer_size)),
            )
        } else {
            (Option::None, Option::None)
        };
        PipelineDriver {
            config,
            accumulator: BatchAccumulator::new(config.batch_size),
            breaker,
            buffer,
        }
    }

    /// Current circuit state, when resilience is enabled; for external
    /// health inspection.
    pub fn breaker_state(&self) -> (r: Option<CircuitState>)
        ensures
            match self.spec_breaker() {
                Option::Some(b) => r == Option::Some(b.state),
                Option::None => r is None,
            },
    {
        match &self.breaker {
            Option::Some(cb) => Option::Some(cb.state()),
            Option::None => Option::None,
        }
    }

    /// Number of packets waiting in the offline buffer; for external
    /// health inspection.
    pub fn buffer_len(&self) -> (r: usize)
        ensures
            r == match self.spec_buffer() {
                Option::Some(v) => v.len(),
                Option::None => 0,
            },
    {
        match &self.buffer {
            Option::Some(b) => b.len(),
            Option::None => 0,
        }
    }

    /// Accept one packet into the in-progress batch; a full batch is
    /// handed back for dispatch.
    pub fn offer(&mut self, packet: TelemetryPacket) -> (r: Option<Vec<TelemetryPacket>>)
        requires
            old(self).wf(),
            old(self).spec_batch().len() < usize::MAX,
        ensures
            final(self).wf(),
            final(self).spec_config() == old(self).spec_config(),
            final(self).spec_breaker() == old(self).spec_breaker(),
            final(self).spec_buffer() == old(self).spec_buffer(),
            final(self).spec_buffer_cap() == old(self).spec_buffer_cap(),
            old(self).wf() ==> final(self).wf(),
            old(self).spec_batch().len() + 1 >= old(self).spec_config().batch_size ==> (
            r matches Some(b) && spec_packets(b@) == old(self).spec_batch().push(packet@)
                && final(self).spec_batch() == Seq::<TelemetryPacketModel>::empty()),
            old(self).spec_batch().len() + 1 < old(self).spec_config().batch_size ==> r is None
                && final(self).spec_batch() == old(self).spec_batch().push(packet@),
    {
        self.accumulator.offer(packet)
    }

    /// Flush the in-progress batch (on batch timeout or channel closure).
    pub fn take_batch(&mut self) -> (r: Option<Vec<TelemetryPacket>>)
        ensures
            final(self).spec_config() == old(self).spec_config(),
            final(self).spec_breaker() == old(self).spec_breaker(),
            final(self).spec_buffer() == old(self).spec_buffer(),
            final(self).spec_buffer_cap() == old(self).spec_buffer_cap(),
            old(self).wf() ==> final(self).wf(),
            final(self).spec_batch() == Seq::<TelemetryPacketModel>::empty(),
            old(self).spec_batch().len() == 0 ==> r is None,
            old(self).spec_batch().len() > 0 ==> (r matches Some(b) && spec_packets(b@) == old(
                self,
            ).spec_batch()),
    {
        self.accumulator.take_batch()
    }

    /// Serialize and, when enabled, compress a batch.  The payload is the
    /// gzip compression of the canonical batch text, or the text's bytes
    /// when compression is off; the metadata reports both sizes.
    pub fn make_payload(&self, batch: &Vec<TelemetryPacket>, created_at: Timestamp) -> (r: Result<
        (Vec<u8>, CompressedBatch),
        StreamingError,
    >)
        ensures
            match r {
                Result::Ok(p) => {
                    let text = vstd::utf8::encode_utf8(spec_batch_json(spec_packets(batch@)));
                    &&& p.1.packet_count == batch@.len()
                    &&& p.1.uncompressed_size == text.len()
                    &&& p.1.compressed_size == p.0@.len()
                    &&& p.1.created_at@ == created_at@
                    &&& (self.spec_config().enable_compression ==> p.0@ == gzip_of(text))
                    &&& (!self.spec_config().enable_compression ==> p.0@ == text)
                },
                Result::Err(e) => self.spec_config().enable_compression && e is CompressionFailed,
            },
    {
        let json = batch_to_json(batch);
        let bytes = string_utf8_bytes(json.as_str());
        let uncompressed_size = bytes.len();
        let payload: Vec<u8> = if self.config.enable_compression {
            match gzip_compress(&bytes) {
                Result::Ok(v) => v,
                Result::Err(msg) => {
                    return Result::Err(StreamingError::CompressionFailed(msg));
                },
            }
        } else {
            bytes
        };
        let meta = CompressedBatch {
            packet_count: batch.len(),
            compressed_size: payload.len(),
            uncompressed_size,
            created_at,
        };
        Result::Ok((payload, meta))
    }

    /// Push every packet of the batch into the offline buffer, in order,
    /// dropping packets once the buffer is full (the loss is visible in
    /// the buffer length, never a failure of the batch).  Without a buffer
    /// this does nothing.
    fn buffer_all(&mut self, batch: &Vec<TelemetryPacket>)
        requires
            old(self).wf(),
        ensures
            final(self).wf(),
            final(self).spec_config() == old(self).spec_config(),
            final(self).spec_batch() == old(self).spec_batch(),
            final(self).spec_buffer_cap() == old(self).spec_buffer_cap(),
            final(self).spec_breaker() == old(self).spec_breaker(),
            match old(self).spec_buffer() {
                Option::Some(v0) => final(self).spec_buffer() == Option::Some(
                    spec_push_capped(v0, spec_packets(batch@), old(self).spec_buffer_cap()),
                ),
                Option::None => final(self).spec_buffer() is None,
            },
    {
        match &mut self.buffer {
            Option::Some(ob) => {
                let ghost v0 = ob@;
                let ghost items = spec_packets(batch@);
                let ghost cap = ob.spec_max_size() as nat;
                proof {
                    assert(items.skip(0) =~= items);
                }
                let mut i: usize = 0;
                while i < batch.len()
                    invariant
                        0 <= i <= batch.len(),
                        items == spec_packets(batch@),
                        items.len() == batch.len(),
                        cap == ob.spec_max_size(),
                        ob.wf(),
                        spec_push_capped(v0, items, cap) == spec_push_capped(
                            ob@,
                            items.skip(i as int),
                            cap,
                        ),
                    decreases batch.len() - i,
                {
                    let ghost bv = ob@;
                    let _ = ob.push(batch[i].clone());
                    proof {
                        assert(items.skip(i as int)[0] == items[i as int]);
                        assert(items.skip(i as int).skip(1) =~= items.skip(i + 1));
                        assert(items[i as int] == batch@[i as int]@);
                    }
                    i = i + 1;
                }
                proof {
                    assert(items.skip(batch.len() as int) =~= Seq::<TelemetryPacketModel>::empty());
                }
            },
            Option::None => {},
        }
    }

    /// Record one transport failure at `now_ms` with the circuit breaker,
    /// when resilience is enabled.
    fn note_failure(&mut self, now_ms: u64)
        requires
            old(self).wf(),
        ensures
            final(self).wf(),
            final(self).spec_config() == old(self).spec_config(),
            final(self).spec_batch() == old(self).spec_batch(),
            final(self).spec_buffer() == old(self).spec_buffer(),
            final(self).spec_buffer_cap() == old(self).spec_buffer_cap(),
            match old(self).spec_breaker() {
                Option::Some(b0) => final(self).spec_breaker() == Option::Some(
                    spec_record_failure(b0, now_ms),
                ),
                Option::None => final(self).spec_breaker() is None,
            },
    {
        match &mut self.breaker {
            Option::Some(cb) => {
                cb.record_failure(now_ms);
            },
            Option::None => {},
        }
    }

    /// Consult the circuit breaker before dispatch, at time `now_ms`.
    /// Returns whether dispatch may proceed.  While the breaker is open
    /// (after its lazy half-open check) no dispatch attempt is to be made:
    /// the whole batch is diverted into the offline buffer instead.
    pub fn gate_batch(&mut self, batch: &Vec<TelemetryPacket>, now_ms: u64) -> (r: bool)
        requires
            old(self).wf(),
        ensures
            final(self).wf(),
            final(self).spec_config() == old(self).spec_config(),
            final(self).spec_batch() == old(self).spec_batch(),
            final(self).spec_buffer_cap() == old(self).spec_buffer_cap(),
            old(self).spec_breaker() is None ==> r == true && final(self).spec_breaker() is None
                && final(self).spec_buffer() == old(self).spec_buffer(),
            old(self).spec_breaker() matches Some(b0) ==> {
                let b1 = spec_try_half_open(b0, now_ms);
                &&& final(self).spec_breaker() == Option::Some(b1)
                &&& (b1.state is Open ==> r == false && final(self).spec_buffer()
                    == Option::Some(
                    spec_push_capped(
                        old(self).spec_buffer().unwrap(),
                        spec_packets(batch@),
                        old(self).spec_buffer_cap(),
                    ),
                ))
                &&& (!(b1.state is Open) ==> r == true && final(self).spec_buffer()
                    == old(self).spec_buffer())
            },
    {
        let proceed = match &mut self.breaker {
            Option::Some(cb) => {
                cb.try_half_open(now_ms);
                match cb.state() {
                    CircuitState::Open => false,
                    _ => true,
                }
            },
            Option::None => true,
        };
        if !proceed {
            self.buffer_all(batch);
        }
        proceed
    }

    /// Record the per-sink outcomes of one dispatched batch at `now_ms`.
    /// Every failed sink counts one circuit-breaker failure; a dispatch
    /// with at least one failed sink buffers the whole batch once for
    /// later retry.  When every sink succeeded, the breaker records one
    /// success and the offline buffer is drained; the drained packets are
    /// handed back for a best-effort replay.  Returns whether all sinks
    /// succeeded, with the packets to replay.
    pub fn record_outcomes(
        &mut self,
        batch: &Vec<TelemetryPacket>,
        results: &Vec<bool>,
        now_ms: u64,
    ) -> (r: (bool, Vec<TelemetryPacket>))
        requires
            old(self).wf(),
        ensures
            final(self).wf(),
            final(self).spec_config() == old(self).spec_config(),
            final(self).spec_batch() == old(self).spec_batch(),
            final(self).spec_buffer_cap() == old(self).spec_buffer_cap(),
            r.0 == (spec_count_false(results@) == 0),
            old(self).spec_breaker() is None ==> (final(self).spec_breaker() is None
                && final(self).spec_buffer() == old(self).spec_buffer() && r.1@.len() == 0),
            old(self).spec_breaker() matches Some(b0) ==> {
                let f = spec_count_false(results@);
                let v0 = old(self).spec_buffer().unwrap();
                let cap = old(self).spec_buffer_cap();
                &&& (f == 0 ==> final(self).spec_breaker() == Option::Some(spec_record_success(b0))
                    && spec_packets(r.1@) == v0 && final(self).spec_buffer() == Option::Some(
                    Seq::<TelemetryPacketModel>::empty(),
                ))
                &&& (f > 0 ==> final(self).spec_breaker() == Option::Some(
                    spec_failures_n(b0, f, now_ms),
                ) && final(self).spec_buffer() == Option::Some(
                    spec_push_capped(v0, spec_packets(batch@), cap),
                ) && r.1@.len() == 0)
            },
    {
        let ghost b0opt = self.spec_breaker();
        let ghost v0opt = self.spec_buffer();
        let mut all_ok: bool = true;
        let mut i: usize = 0;
        while i < results.len()
            invariant
                0 <= i <= results.len(),
                self.wf(),
                self.spec_config() == old(self).spec_config(),
                self.spec_batch() == old(self).spec_batch(),
                self.spec_buffer_cap() == old(self).spec_buffer_cap(),
                b0opt == old(self).spec_breaker(),
                v0opt == old(self).spec_buffer(),
                self.spec_buffer() == v0opt,
                all_ok == (spec_count_false(results@.take(i as int)) == 0),
                b0opt is None ==> self.spec_breaker() is None,
                b0opt matches Some(b0) ==> self.spec_breaker() == Option::Some(
                    spec_failures_n(b0, spec_count_false(results@.take(i as int)), now_ms),
                ),
            decreases results.len() - i,
        {
            let ghost cnt = spec_count_false(results@.take(i as int));
            proof {
                assert(results@.take(i + 1).drop_last() =~= results@.take(i as int));
                assert(results@.take(i + 1).last() == results@[i as int]);
            }
            if !results[i] {
                self.note_failure(now_ms);
                all_ok = false;
                proof {
                    if b0opt is Some {
                        lemma_failures_n_snoc(b0opt.unwrap(), cnt, now_ms);
                    }
                }
            }
            i = i + 1;
        }
        proof {
            assert(results@.take(results@.len() as int) =~= results@);
        }
        if all_ok {
            match &mut self.breaker {
                Option::Some(cb) => {
                    cb.record_success();
                },
                Option::None => {},
            }
            let replay = match &mut self.buffer {
                Option::Some(ob) => ob.drain(),
                Option::None => Vec::new(),
            };
            proof {
                assert(spec_packets(replay@) =~= crate::resilience::spec_buffered(replay@));
            }
            (true, replay)
        } else {
            self.buffer_all(batch);
            (false, Vec::new())
        }
    }
}

/// Collapse a batch into the single aggregate packet one sink send
/// carries: the sequence number, health and diagnostics of the first
/// packet, the readings of every packet concatenated in batch order, and
/// the given timestamp.  An empty batch yields sequence zero with fresh
/// health and diagnostics.
pub fn aggregate_batch(batch: &Vec<TelemetryPacket>, timestamp: Timestamp) -> (r: TelemetryPacket)
    ensures
        r@.timestamp == timestamp@,
        r@.sensor_readings == spec_concat_readings(spec_packets(batch@)),
        batch@.len() > 0 ==> r@.sequence == batch@[0]@.sequence && r@.health == batch@[0]@.health
            && r@.diagnostics == batch@[0]@.diagnostics,
        batch@.len() == 0 ==> r@.sequence == 0 && r@.health.status
            == crate::types::HealthStatus::Unknown && r@.diagnostics.total_entries == 0,
{
    let ghost m = spec_packets(batch@);
    let mut readings: Vec<crate::types::SensorReading> = Vec::new();
    let mut i: usize = 0;
    proof {
        assert(spec_readings(readings@) =~= Seq::<SensorReadingModel>::empty());
        assert(m.skip(0) =~= m);
        assert(spec_readings(readings@) + spec_concat_readings(m.skip(0)) =~= spec_concat_readings(
            m,
        ));
    }
    while i < batch.len()
        invariant
            0 <= i <= batch.len(),
            m == spec_packets(batch@),
            m.len() == batch.len(),
            spec_concat_readings(m) == spec_readings(readings@) + spec_concat_readings(
                m.skip(i as int),
            ),
        decreases batch.len() - i,
    {
        let ghost r0 = spec_readings(readings@);
        let packet = &batch[i];
        let mut j: usize = 0;
        proof {
            assert(r0 + spec_readings(packet.sensor_readings@).take(0) =~= r0);
        }
        while j < packet.sensor_readings.len()
            invariant
                0 <= j <= packet.sensor_readings.len(),
                spec_readings(readings@) == r0 + spec_readings(packet.sensor_readings@).take(
                    j as int,
                ),
            decreases packet.sensor_readings.len() - j,
        {
            let item = packet.sensor_readings[j].clone();
            proof {
                assert(item@ == packet.sensor_readings@[j as int]@);
            }
            let ghost prev = readings@;
            readings.push(item);
            proof {
                assert(readings@ == prev.push(item));
                assert(spec_readings(readings@) =~= spec_readings(prev).push(item@));
                assert(spec_readings(packet.sensor_readings@).take(j + 1) =~= spec_readings(
                    packet.sensor_readings@,
                ).take(j as int).push(packet.sensor_readings@[j as int]@));
                assert(spec_readings(prev).push(item@) =~= r0 + spec_readings(
                    packet.sensor_readings@,
                ).take(j + 1));
            }
            j = j + 1;
        }
        proof {
            assert(spec_readings(packet.sensor_readings@).take(
                packet.sensor_readings@.len() as int,
            ) =~= spec_readings(packet.sensor_readings@));
            assert(m[i as int] == batch@[i as int]@);
            assert(m.skip(i as int)[0] == m[i as int]);
            assert(m.skip(i as int).skip(1) =~= m.skip(i + 1));
            assert(spec_readings(readings@) + spec_concat_readings(m.skip(i + 1)) =~= (r0
                + m[i as int].sensor_readings) + spec_concat_readings(m.skip(i + 1)));
            assert((r0 + m[i as int].sensor_readings) + spec_concat_readings(m.skip(i + 1)) =~= r0
                + (m[i as int].sensor_readings + spec_concat_readings(m.skip(i + 1))));
        }
        i = i + 1;
    }
    proof {
        assert(m.skip(batch.len() as int) =~= Seq::<TelemetryPacketModel>::empty());
        assert(spec_readings(readings@) + spec_concat_readings(m.skip(batch.len() as int))
            =~= spec_readings(readings@));
    }
    if batch.len() > 0 {
        TelemetryPacket {
            sequence: batch[0].sequence,
            timestamp,
            health: batch[0].health.clone(),
            sensor_readings: readings,
            diagnostics: batch[0].diagnostics.clone(),
        }
    } else {
        TelemetryPacket {
            sequence: 0,
            timestamp,
            health: crate::types::SystemHealth::new(),
            sensor_readings: readings,
            diagnostics: crate::types::DiagnosticsReport::new(),
        }
    }
}

} // verus!