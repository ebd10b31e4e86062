use vstd::prelude::*;

use crate::error::Error;
use crate::fir::{
    fir_block, lemma_selected_taps_len, render_fir_config, select_fir_config, selected_decimation,
    selected_taps,
};
use crate::freq::{to_i64_wrapping, wrap_to_i64, Frequency};
use crate::gain::{mode_str, GainControlMode};
use crate::path_rates::{parse_tx_path_rates, path_rates_match, TxPathRates};
use crate::store::{AttrKey, AttrName, AttrValueV, AttributeStore, ChannelName, Target, WriteV};

verus! {

/// The chip's documented minimum baseband sample rate.
pub const MIN_SAMPLE_RATE_HZ: u64 = 521_000;

/// At or below this rate the transmit path needs special care: rates this
/// low must be reached while the filter is off and the path confirmed
/// feasible.
pub const LOW_RATE_THRESHOLD_HZ: u64 = 25_000_000 / 12;

/// A rate every filter state of the hardware can reach: written as a
/// parking position before steps that could otherwise demand an illegal
/// intermediate configuration.
pub const SAFE_PARK_RATE_HZ: u64 = 3_000_000;

/// Current sample rate is read from the input side of `voltage0`.
pub open spec fn k_sample_in() -> AttrKey {
    AttrKey { target: Target::Chan(ChannelName::Voltage0, false), attr: AttrName::SamplingFrequency }
}

/// New sample rates are written to the output side of `voltage0`.
pub open spec fn k_sample_out() -> AttrKey {
    AttrKey { target: Target::Chan(ChannelName::Voltage0, true), attr: AttrName::SamplingFrequency }
}

/// The filter configuration block lives on the phy device itself.
pub open spec fn k_fir_config() -> AttrKey {
    AttrKey { target: Target::Phy, attr: AttrName::FilterFirConfig }
}

/// The transmit-path status line lives on the phy device itself.
pub open spec fn k_tx_path_rates() -> AttrKey {
    AttrKey { target: Target::Phy, attr: AttrName::TxPathRates }
}

/// The filter-enable flag has two homes: a device-level attribute, and a
/// channel-level fallback on the `out` channel for hardware that lacks
/// the former.
pub open spec fn fir_en_key(device_level: bool) -> AttrKey {
    if device_level {
        AttrKey { target: Target::Phy, attr: AttrName::InOutVoltageFilterFirEn }
    } else {
        AttrKey { target: Target::Chan(ChannelName::Out, false), attr: AttrName::VoltageFilterFirEn }
    }
}

pub open spec fn k_gain_mode() -> AttrKey {
    AttrKey { target: Target::Chan(ChannelName::Voltage0, false), attr: AttrName::GainControlMode }
}

pub open spec fn k_rx_carrier() -> AttrKey {
    AttrKey { target: Target::Chan(ChannelName::AltVoltage0, true), attr: AttrName::Frequency }
}

pub open spec fn k_tx_carrier() -> AttrKey {
    AttrKey { target: Target::Chan(ChannelName::AltVoltage1, true), attr: AttrName::Frequency }
}

pub open spec fn k_rx_bandwidth() -> AttrKey {
    AttrKey { target: Target::Chan(ChannelName::Voltage0, false), attr: AttrName::RfBandwidth }
}

pub open spec fn k_tx_bandwidth() -> AttrKey {
    AttrKey { target: Target::Chan(ChannelName::Voltage0, true), attr: AttrName::RfBandwidth }
}

/// What a successful read of a frequency attribute means: the store holds
/// exactly that count behind the key. A conversion error means the store
/// holds a negative count there.
pub open spec fn freq_attr_read_ok<S: AttributeStore>(
    store: S,
    key: AttrKey,
    r: Result<Frequency, Error>,
) -> bool {
    &&& r matches Ok(f) ==> f.hertz <= i64::MAX && store.contents().contains_key(key)
        && store.contents()[key] == AttrValueV::Int(f.hertz as i64)
    &&& r matches Err(e) ==> e.is_store_error() || e == Error::FailedDownconvIntAttr
    &&& (r matches Err(e) && e == Error::FailedDownconvIntAttr) ==> store.contents().contains_key(
        key,
    ) && (store.contents()[key] matches AttrValueV::Int(v) && v < 0)
}

/// What writing one integer attribute means for the write log.
pub open spec fn int_write_result<S: AttributeStore>(
    pre: S,
    post: S,
    key: AttrKey,
    val: i64,
    r: Result<(), Error>,
) -> bool {
    &&& r matches Ok(_) ==> post.writes() == pre.writes().push(WriteV::Int(key, val))
    &&& r matches Err(e) ==> post.writes() == pre.writes() && e.is_store_error()
}

/// The safe-intermediate-rate write.
pub open spec fn park_write() -> WriteV {
    WriteV::Int(k_sample_out(), SAFE_PARK_RATE_HZ as i64)
}

/// Whether the freshly written filter cannot be loaded at the path's
/// current working rates: the ratio of DAC rate to final transmit rate
/// supports at most `(dac / tx) * 16` taps (truncating integer
/// arithmetic). A transmit rate of zero reports no usable ratio, so the
/// path also counts as infeasible then and the safe rate is parked first.
pub open spec fn needs_repark(pr: TxPathRates, tap_count: int) -> bool {
    let tx = pr.tx_sample_rate.hertz as int;
    let dac = pr.dac_sample_rate.hertz as int;
    tx == 0 || (dac / tx) * 16 < tap_count
}

/// Everything a successful rate change observed on its way: the rates it
/// read, which home of the filter-enable flag answered each access, and
/// the status line it parsed (meaningful only for low target rates).
pub struct SetRateTrace {
    pub cur_rate: i64,
    pub fir_was_enabled: bool,
    pub read_device_level: bool,
    pub disable_device_level: bool,
    pub enable_device_level: bool,
    pub path_line: Seq<char>,
    pub path_rates: TxPathRates,
}

/// The exact sequence of writes a successful rate change performs, as a
/// function of the target rate and of what the radio reported along the
/// way. Low target rates park first when the path is infeasible, then
/// enable the filter, then commit the rate; high target rates commit the
/// rate first because the filter can always keep up.
pub open spec fn set_rate_writes(rate: u64, w: SetRateTrace) -> Seq<WriteV> {
    (if w.fir_was_enabled {
        (if w.cur_rate <= LOW_RATE_THRESHOLD_HZ as i64 {
            seq![park_write()]
        } else {
            Seq::<WriteV>::empty()
        }) + seq![WriteV::Bool(fir_en_key(w.disable_device_level), false)]
    } else {
        Seq::<WriteV>::empty()
    }) + seq![
        WriteV::Str(k_fir_config(), fir_block(selected_decimation(rate), selected_taps(rate))),
    ] + (if rate <= LOW_RATE_THRESHOLD_HZ {
        (if needs_repark(w.path_rates, selected_taps(rate).len() as int) {
            seq![park_write()]
        } else {
            Seq::<WriteV>::empty()
        }) + seq![
            WriteV::Bool(fir_en_key(w.enable_device_level), true),
            WriteV::Int(k_sample_out(), wrap_to_i64(rate)),
        ]
    } else {
        seq![
            WriteV::Int(k_sample_out(), wrap_to_i64(rate)),
            WriteV::Bool(fir_en_key(w.enable_device_level), true),
        ]
    })
}

/// A successful rate change appended exactly the writes of
/// `set_rate_writes` for some trace that the radio's state before the
/// call vouches for: the current rate and filter flag were what the
/// store held, and for low rates the parsed status line was well formed.
pub open spec fn set_rate_ok<S: AttributeStore>(
    pre: S,
    post: S,
    rate: u64,
    w: SetRateTrace,
) -> bool {
    &&& post.writes() == pre.writes() + set_rate_writes(rate, w)
    &&& 0 <= w.cur_rate
    &&& pre.contents().contains_key(k_sample_in())
    &&& pre.contents()[k_sample_in()] == AttrValueV::Int(w.cur_rate)
    &&& pre.contents().contains_key(fir_en_key(w.read_device_level))
    &&& pre.contents()[fir_en_key(w.read_device_level)] == AttrValueV::Bool(w.fir_was_enabled)
    &&& rate <= LOW_RATE_THRESHOLD_HZ ==> path_rates_match(w.path_line, w.path_rates)
}

/// Law: when the filter was on and the radio sat at or below the
/// low-rate threshold, the safe intermediate rate is written before the
/// filter is disabled, and both precede everything else.
pub proof fn lemma_park_precedes_disable(rate: u64, w: SetRateTrace)
    requires
        w.fir_was_enabled,
        w.cur_rate <= LOW_RATE_THRESHOLD_HZ as i64,
    ensures
        set_rate_writes(rate, w)[0] == park_write(),
        set_rate_writes(rate, w)[1] == WriteV::Bool(fir_en_key(w.disable_device_level), false),
{
}

proof fn lemma_prefix_refl(s: Seq<WriteV>)
    ensures
        s.is_prefix_of(s),
{
    assert(s =~= s.subrange(0, s.len() as int));
}

proof fn lemma_prefix_concat(a: Seq<WriteV>, b: Seq<WriteV>)
    ensures
        a.is_prefix_of(a + b),
{
    assert(a =~= (a + b).subrange(0, a.len() as int));
}

/// Does the freshly selected filter need the path parked at the safe rate
/// before it can be enabled?
fn repark_required(pr: &TxPathRates, tap_count: usize) -> (r: bool)
    requires
        tap_count <= 128,
    ensures
        r == needs_repark(*pr, tap_count as int),
{
    let tx = pr.tx_sample_rate.get_hertz();
    let dac = pr.dac_sample_rate.get_hertz();
    if tx == 0 {
        true
    } else {
        let q = dac / tx;
        if q >= 8 {
            proof {
                assert(q * 16 >= 128) by (nonlinear_arith)
                    requires
                        q >= 8,
                ;
            }
            false
        } else {
            q * 16 < (tap_count as u64)
        }
    }
}

/// A handle on one physical transceiver's attribute namespace for the
/// lifetime of a session; all operations go through it.
pub struct Pluto<S: AttributeStore> {
    pub store: S,
}

impl<S: AttributeStore> Pluto<S> {
    /// Wraps the attribute namespace of one phy device.
    pub fn new(store: S) -> (r: Pluto<S>)
        ensures
            r.store == store,
    {
        Pluto { store }
    }

    /// Reads one nonnegative integer attribute as a frequency.
    fn read_chan_freq_attr(&self, key: AttrKey) -> (r: Result<Frequency, Error>)
        ensures
            freq_attr_read_ok(self.store, key, r),
    {
        match self.store.read_int(key) {
            Ok(v) => {
                if v >= 0 {
                    Ok(Frequency::new_hertz(v as u64))
                } else {
                    Err(Error::FailedDownconvIntAttr)
                }
            },
            Err(e) => Err(e),
        }
    }

    pub fn get_sample_rate(&self) -> (r: Result<Frequency, Error>)
        ensures
            freq_attr_read_ok(self.store, k_sample_in(), r),
    {
        self.read_chan_freq_attr(
            AttrKey {
                target: Target::Chan(ChannelName::Voltage0, false),
                attr: AttrName::SamplingFrequency,
            },
        )
    }

    pub fn get_rx_carrier_freq(&self) -> (r: Result<Frequency, Error>)
        ensures
            freq_attr_read_ok(self.store, k_rx_carrier(), r),
    {
        self.read_chan_freq_attr(
            AttrKey {
                target: Target::Chan(ChannelName::AltVoltage0, true),
                attr: AttrName::Frequency,
            },
        )
    }

    pub fn set_rx_carrier_freq(&mut self, freq: Frequency) -> (r: Result<(), Error>)
        ensures
            int_write_result(
                old(self).store,
                final(self).store,
                k_rx_carrier(),
                wrap_to_i64(freq.hertz),
                r,
            ),
    {
        self.store.write_int(
            AttrKey {
                target: Target::Chan(ChannelName::AltVoltage0, true),
                attr: AttrName::Frequency,
            },
            to_i64_wrapping(freq.get_hertz()),
        )
    }

    pub fn get_tx_carrier_freq(&self) -> (r: Result<Frequency, Error>)
        ensures
            freq_attr_read_ok(self.store, k_tx_carrier(), r),
    {
        self.read_chan_freq_attr(
            AttrKey {
                target: Target::Chan(ChannelName::AltVoltage1, true),
                attr: AttrName::Frequency,
            },
        )
    }

    pub fn set_tx_carrier_freq(&mut self, freq: Frequency) -> (r: Result<(), Error>)
        ensures
            int_write_result(
                old(self).store,
                final(self).store,
                k_tx_carrier(),
                wrap_to_i64(freq.hertz),
                r,
            ),
    {
        self.store.write_int(
            AttrKey {
                target: Target::Chan(ChannelName::AltVoltage1, true),
                attr: AttrName::Frequency,
            },
            to_i64_wrapping(freq.get_hertz()),
        )
    }

    pub fn get_rx_rf_bandwidth(&self) -> (r: Result<Frequency, Error>)
        ensures
            freq_attr_read_ok(self.store, k_rx_bandwidth(), r),
    {
        self.read_chan_freq_attr(
            AttrKey {
                target: Target::Chan(ChannelName::Voltage0, false),
                attr: AttrName::RfBandwidth,
            },
        )
    }

    pub fn set_rx_rf_bandwidth(&mut self, bandwidth: Frequency) -> (r: Result<(), Error>)
        ensures
            int_write_result(
                old(self).store,
                final(self).store,
                k_rx_bandwidth(),
                wrap_to_i64(bandwidth.hertz),
                r,
            ),
    {
        self.store.write_int(
            AttrKey {
                target: Target::Chan(ChannelName::Voltage0, false),
                attr: AttrName::RfBandwidth,
            },
            to_i64_wrapping(bandwidth.get_hertz()),
        )
    }

    pub fn get_tx_rf_bandwidth(&self) -> (r: Result<Frequency, Error>)
        ensures
            freq_attr_read_ok(self.store, k_tx_bandwidth(), r),
    {
        self.read_chan_freq_attr(
            AttrKey {
                target: Target::Chan(ChannelName::Voltage0, true),
                attr: AttrName::RfBandwidth,
            },
        )
    }

    pub fn set_tx_rf_bandwidth(&mut self, bandwidth: Frequency) -> (r: Result<(), Error>)
        ensures
            int_write_result(
                old(self).store,
                final(self).store,
                k_tx_bandwidth(),
                wrap_to_i64(bandwidth.hertz),
                r,
            ),
    {
        self.store.write_int(
            AttrKey {
                target: Target::Chan(ChannelName::Voltage0, true),
                attr: AttrName::RfBandwidth,
            },
            to_i64_wrapping(bandwidth.get_hertz()),
        )
    }

    pub fn get_gain_control_mode(&self) -> (r: Result<GainControlMode, Error>)
        ensures
            r matches Ok(m) ==> self.store.contents().contains_key(k_gain_mode())
                && self.store.contents()[k_gain_mode()] == AttrValueV::Str(mode_str(m)),
            r matches Err(e) ==> e.is_store_error() || (e matches Error::InvalidGainControlMode(
                x,
            ) && self.store.contents().contains_key(k_gain_mode())
                && self.store.contents()[k_gain_mode()] == AttrValueV::Str(x@) && (forall|
                m: GainControlMode,
            | x@ != #[trigger] mode_str(m))),
    {
        let key = AttrKey {
            target: Target::Chan(ChannelName::Voltage0, false),
            attr: AttrName::GainControlMode,
        };
        match self.store.read_str(key) {
            Ok(s) => GainControlMode::from_str(s.as_str()),
            Err(e) => Err(e),
        }
    }

    pub fn set_gain_control_mode(&mut self, mode: GainControlMode) -> (r: Result<(), Error>)
        ensures
            r matches Ok(_) ==> final(self).store.writes() == old(self).store.writes().push(
                WriteV::Str(k_gain_mode(), mode_str(mode)),
            ),
            r matches Err(e) ==> final(self).store.writes() == old(self).store.writes()
                && e.is_store_error(),
    {
        let key = AttrKey {
            target: Target::Chan(ChannelName::Voltage0, false),
            attr: AttrName::GainControlMode,
        };
        self.store.write_str(key, mode.as_str())
    }

    /// Reads the transmit filter-enable flag, trying the device-level
    /// attribute first and the `out`-channel fallback second.
    pub fn is_tx_fir_enabled(&self) -> (r: Result<bool, Error>)
        ensures
            r matches Ok(v) ==> exists|d: bool|
                self.store.contents().contains_key(#[trigger] fir_en_key(d))
                    && self.store.contents()[fir_en_key(d)] == AttrValueV::Bool(v),
            r matches Err(e) ==> e.is_store_error(),
    {
        let device_key = AttrKey { target: Target::Phy, attr: AttrName::InOutVoltageFilterFirEn };
        match self.store.read_bool(device_key) {
            Ok(v) => {
                proof {
                    assert(self.store.contents().contains_key(fir_en_key(true)));
                }
                Ok(v)
            },
            Err(_) => {
                let chan_key = AttrKey {
                    target: Target::Chan(ChannelName::Out, false),
                    attr: AttrName::VoltageFilterFirEn,
                };
                match self.store.read_bool(chan_key) {
                    Ok(v) => {
                        proof {
                            assert(self.store.contents().contains_key(fir_en_key(false)));
                        }
                        Ok(v)
                    },
                    Err(e) => Err(e),
                }
            },
        }
    }

    /// Writes the transmit filter-enable flag, with the same two-tier
    /// fallback as the read.
    pub fn set_tx_fir_enabled(&mut self, enable: bool) -> (r: Result<(), Error>)
        ensures
            r matches Ok(_) ==> exists|d: bool|
                final(self).store.writes() == old(self).store.writes().push(
                    WriteV::Bool(#[trigger] fir_en_key(d), enable),
                ),
            r matches Err(e) ==> final(self).store.writes() == old(self).store.writes()
                && e.is_store_error(),
    {
        let device_key = AttrKey { target: Target::Phy, attr: AttrName::InOutVoltageFilterFirEn };
        match self.store.write_bool(device_key, enable) {
            Ok(_) => {
                proof {
                    assert(self.store.writes() == old(self).store.writes().push(
                        WriteV::Bool(fir_en_key(true), enable),
                    ));
                }
                Ok(())
            },
            Err(_) => {
                let chan_key = AttrKey {
                    target: Target::Chan(ChannelName::Out, false),
                    attr: AttrName::VoltageFilterFirEn,
                };
                match self.store.write_bool(chan_key, enable) {
                    Ok(_) => {
                        proof {
                            assert(self.store.writes() == old(self).store.writes().push(
                                WriteV::Bool(fir_en_key(false), enable),
                            ));
                        }
                        Ok(())
                    },
                    Err(e) => Err(e),
                }
            },
        }
    }

    /// Changes the baseband sample rate, sequencing the transmit filter
    /// around the change so that no step demands an illegal intermediate
    /// hardware state: rates below the documented minimum are rejected
    /// outright; the filter is disabled (parking at the safe rate first
    /// when the radio sits at a low rate), the new filter block is
    /// written, and rate and filter-enable are committed in the order the
    /// target band requires, parking again when the path cannot carry the
    /// new filter. Any store failure aborts immediately, leaving the
    /// writes so far in place.
    pub fn set_sample_rate(&mut self, rate: Frequency) -> (r: Result<(), Error>)
        ensures
            old(self).store.writes().is_prefix_of(final(self).store.writes()),
            (r matches Err(e) && e == Error::InvalidSampleRate) <==> rate.hertz
                < MIN_SAMPLE_RATE_HZ,
            rate.hertz < MIN_SAMPLE_RATE_HZ ==> final(self).store.writes() == old(
                self,
            ).store.writes(),
            r matches Ok(_) ==> exists|w: SetRateTrace| #[trigger] set_rate_ok(
                old(self).store,
                final(self).store,
                rate.hertz,
                w,
            ),
            r matches Err(e) ==> e == Error::InvalidSampleRate || e.is_store_error() || e
                == Error::ParsingError || e == Error::FailedDownconvIntAttr,
            (r matches Err(e) && e == Error::ParsingError) ==> rate.hertz
                <= LOW_RATE_THRESHOLD_HZ,
    {
        let rate_hz = rate.get_hertz();
        if rate_hz < MIN_SAMPLE_RATE_HZ {
            proof {
                lemma_prefix_refl(self.store.writes());
            }
            return Err(Error::InvalidSampleRate);
        }
        let ghost pre = self.store;
        let ghost mut done: Seq<WriteV> = Seq::empty();

        let current = match self.get_sample_rate() {
            Ok(f) => f,
            Err(e) => {
                proof {
                    lemma_prefix_refl(self.store.writes());
                }
                return Err(e);
            },
        };
        let fir_enabled = match self.is_tx_fir_enabled() {
            Ok(b) => b,
            Err(e) => {
                proof {
                    lemma_prefix_refl(self.store.writes());
                }
                return Err(e);
            },
        };
        let ghost read_dev = choose|d: bool|
            pre.contents().contains_key(#[trigger] fir_en_key(d)) && pre.contents()[fir_en_key(d)]
                == AttrValueV::Bool(fir_enabled);
        let ghost mut disable_dev: bool = false;
        let ghost mut enable_dev: bool = false;
        let ghost mut path_line: Seq<char> = Seq::empty();
        let ghost mut rates_seen: TxPathRates = TxPathRates {
            tx_sample_rate: Frequency { hertz: 0 },
            hb1_filter_rate: Frequency { hertz: 0 },
            hb2_filter_rate: Frequency { hertz: 0 },
            hb3_filter_rate: Frequency { hertz: 0 },
            dac_sample_rate: Frequency { hertz: 0 },
            baseband_pll_freq: Frequency { hertz: 0 },
        };

        let sample_out_key = AttrKey {
            target: Target::Chan(ChannelName::Voltage0, true),
            attr: AttrName::SamplingFrequency,
        };

        if fir_enabled {
            if current.get_hertz() <= LOW_RATE_THRESHOLD_HZ {
                match self.store.write_int(sample_out_key, 3_000_000i64) {
                    Ok(_) => {},
                    Err(e) => {
                        proof {
                            lemma_prefix_refl(self.store.writes());
                        }
                        return Err(e);
                    },
                }
                proof {
                    done = done.push(park_write());
                    assert(self.store.writes() =~= pre.writes() + done);
                }
            }
            let ghost before = self.store.writes();
            match self.set_tx_fir_enabled(false) {
                Ok(_) => {},
                Err(e) => {
                    proof {
                        lemma_prefix_concat(pre.writes(), done);
                    }
                    return Err(e);
                },
            }
            proof {
                disable_dev = choose|d: bool|
                    self.store.writes() == before.push(
                        WriteV::Bool(#[trigger] fir_en_key(d), false),
                    );
                done = done.push(WriteV::Bool(fir_en_key(disable_dev), false));
                assert(self.store.writes() =~= pre.writes() + done);
            }
        }

        let config = select_fir_config(rate_hz);
        let block = render_fir_config(&config);
        let fir_config_key = AttrKey { target: Target::Phy, attr: AttrName::FilterFirConfig };
        match self.store.write_str(fir_config_key, block.as_str()) {
            Ok(_) => {},
            Err(e) => {
                proof {
                    lemma_prefix_concat(pre.writes(), done);
                }
                return Err(e);
            },
        }
        proof {
            done = done.push(
                WriteV::Str(k_fir_config(), fir_block(selected_decimation(rate_hz), selected_taps(rate_hz))),
            );
            assert(self.store.writes() =~= pre.writes() + done);
        }

        if rate_hz <= LOW_RATE_THRESHOLD_HZ {
            let path_key = AttrKey { target: Target::Phy, attr: AttrName::TxPathRates };
            let path = match self.store.read_str(path_key) {
                Ok(s) => s,
                Err(e) => {
                    proof {
                        lemma_prefix_concat(pre.writes(), done);
                    }
                    return Err(e);
                },
            };
            let rates = match parse_tx_path_rates(path.as_str()) {
                Ok(pr) => pr,
                Err(e) => {
                    proof {
                        lemma_prefix_concat(pre.writes(), done);
                    }
                    return Err(e);
                },
            };
            proof {
                path_line = path@;
                rates_seen = rates;
                lemma_selected_taps_len(rate_hz);
            }
            let tap_count = config.fir_coefficients.len();
            if repark_required(&rates, tap_count) {
                match self.store.write_int(sample_out_key, 3_000_000i64) {
                    Ok(_) => {},
                    Err(e) => {
                        proof {
                            lemma_prefix_concat(pre.writes(), done);
                        }
                        return Err(e);
                    },
                }
                proof {
                    done = done.push(park_write());
                    assert(self.store.writes() =~= pre.writes() + done);
                }
            }
            let ghost before = self.store.writes();
            match self.set_tx_fir_enabled(true) {
                Ok(_) => {},
                Err(e) => {
                    proof {
                        lemma_prefix_concat(pre.writes(), done);
                    }
                    return Err(e);
                },
            }
            proof {
                enable_dev = choose|d: bool|
                    self.store.writes() == before.push(
                        WriteV::Bool(#[trigger] fir_en_key(d), true),
                    );
                done = done.push(WriteV::Bool(fir_en_key(enable_dev), true));
                assert(self.store.writes() =~= pre.writes() + done);
            }
            match self.store.write_int(sample_out_key, to_i64_wrapping(rate_hz)) {
                Ok(_) => {},
                Err(e) => {
                    proof {
                        lemma_prefix_concat(pre.writes(), done);
                    }
                    return Err(e);
                },
            }
            proof {
                done = done.push(WriteV::Int(k_sample_out(), wrap_to_i64(rate_hz)));
                assert(self.store.writes() =~= pre.writes() + done);
            }
        } else {
            match self.store.write_int(sample_out_key, to_i64_wrapping(rate_hz)) {
                Ok(_) => {},
                Err(e) => {
                    proof {
                        lemma_prefix_concat(pre.writes(), done);
                    }
                    return Err(e);
                },
            }
            proof {
                done = done.push(WriteV::Int(k_sample_out(), wrap_to_i64(rate_hz)));
                assert(self.store.writes() =~= pre.writes() + done);
            }
            let ghost before = self.store.writes();
            match self.set_tx_fir_enabled(true) {
                Ok(_) => {},
                Err(e) => {
                    proof {
                        lemma_prefix_concat(pre.writes(), done);
                    }
                    return Err(e);
                },
            }
            proof {
                enable_dev = choose|d: bool|
                    self.store.writes() == before.push(
                        WriteV::Bool(#[trigger] fir_en_key(d), true),
                    );
                done = done.push(WriteV::Bool(fir_en_key(enable_dev), true));
                assert(self.store.writes() =~= pre.writes() + done);
            }
        }

        proof {
            let w = SetRateTrace {
                cur_rate: current.hertz as i64,
                fir_was_enabled: fir_enabled,
                read_device_level: read_dev,
                disable_device_level: disable_dev,
                enable_device_level: enable_dev,
                path_line: path_line,
                path_rates: rates_seen,
            };
            assert(done =~= set_rate_writes(rate_hz, w));
            assert(self.store.writes() =~= pre.writes() + set_rate_writes(rate_hz, w));
            assert(set_rate_ok(pre, self.store, rate_hz, w));
            lemma_prefix_concat(pre.writes(), done);
        }
        Ok(())
    }
}

} // verus!
