//! The GPU segment: its configuration, the arguments of the monitor that it
//! starts, the sample that it keeps and what it shows of it.

use crate::text::{decimal, decimal_text, hex, hex_text};
use crate::unit::UnitView;
use crate::value::{PayloadView, Value, ValueView};
use vstd::prelude::*;

verus! {

/// What the configuration says of one segment.
#[derive(Debug, Default, Clone)]
pub struct RadeontopConfig {
    /// Update interval in whole seconds
    pub interval: u64,
    /// Sets the `--mem` flag of the monitor
    pub mem: bool,
    /// Sets the `--bus` argument of the monitor
    pub bus: Option<String>,
    /// Sets the `--path` argument of the monitor
    pub path: Option<String>,
    /// Sets the `--ticks` argument of the monitor
    pub ticks: Option<String>,
    /// Lowest gpu usage at which the state is info
    pub gpu_info: usize,
    /// Lowest gpu usage at which the state is warning
    pub gpu_warning: usize,
    /// Lowest gpu usage at which the state is critical
    pub gpu_critical: usize,
    /// Lowest vram usage at which the state is info
    pub vram_info: usize,
    /// Lowest vram usage at which the state is warning
    pub vram_warning: usize,
    /// Lowest vram usage at which the state is critical
    pub vram_critical: usize,
    /// Format override
    pub format: String,
}

impl RadeontopConfig {
    pub fn default_interval() -> (seconds: u64)
        ensures
            seconds == 1,
    {
        1
    }

    pub fn default_mem() -> (mem: bool)
        ensures
            !mem,
    {
        false
    }

    pub fn default_bus() -> (bus: Option<String>)
        ensures
            bus is None,
    {
        None
    }

    pub fn default_path() -> (path: Option<String>)
        ensures
            path is None,
    {
        None
    }

    pub fn default_ticks() -> (ticks: Option<String>)
        ensures
            ticks is None,
    {
        None
    }

    pub fn default_gpu_info() -> (cutoff: usize)
        ensures
            cutoff == 30,
    {
        30
    }

    pub fn default_gpu_warning() -> (cutoff: usize)
        ensures
            cutoff == 60,
    {
        60
    }

    pub fn default_gpu_critical() -> (cutoff: usize)
        ensures
            cutoff == 90,
    {
        90
    }

    pub fn default_vram_info() -> (cutoff: usize)
        ensures
            cutoff == 30,
    {
        30
    }

    pub fn default_vram_warning() -> (cutoff: usize)
        ensures
            cutoff == 60,
    {
        60
    }

    pub fn default_vram_critical() -> (cutoff: usize)
        ensures
            cutoff == 90,
    {
        90
    }

    pub fn default_format() -> (format: String)
        ensures
            format@ == "{gpu} {vram_used_percentage}"@,
    {
        "{gpu} {vram_used_percentage}".to_owned()
    }
}

/// The characters of each string of a sequence.
pub open spec fn texts(strings: Seq<String>) -> Seq<Seq<char>> {
    strings.map_values(|s: String| s@)
}

/// The characters of a string that may be absent.
pub open spec fn text_of(s: Option<String>) -> Option<Seq<char>> {
    match s {
        Some(s) => Some(s@),
        None => None,
    }
}

/// The arguments with a flag and its value behind them, where there is a
/// value.
pub open spec fn with_option(args: Seq<Seq<char>>, flag: Seq<char>, value: Option<Seq<char>>) -> Seq<
    Seq<char>,
> {
    match value {
        Some(v) => args.push(flag).push(v),
        None => args,
    }
}

/// The arguments that the monitor is started with: the interval, JSON on
/// standard output, then what the configuration adds.
pub open spec fn dump_args(
    interval: nat,
    mem: bool,
    bus: Option<Seq<char>>,
    path: Option<Seq<char>>,
    ticks: Option<Seq<char>>,
) -> Seq<Seq<char>> {
    let fixed = Seq::<Seq<char>>::empty().push("--dump-interval"@).push(
        decimal_text(interval as int),
    ).push("--dump-format"@).push("json"@).push("--dump"@).push("-"@);
    let with_mem = if mem {
        fixed.push("--mem"@)
    } else {
        fixed
    };
    with_option(
        with_option(with_option(with_mem, "--bus"@, bus), "--path"@, path),
        "--ticks"@,
        ticks,
    )
}

fn push_text(args: &mut Vec<String>, s: String)
    ensures
        texts(final(args)@) == texts(old(args)@).push(s@),
{
    args.push(s);
    assert(texts(args@) =~= texts(old(args)@).push(s@));
}

fn push_option(args: &mut Vec<String>, flag: &str, value: &Option<String>)
    ensures
        texts(final(args)@) == with_option(texts(old(args)@), flag@, text_of(*value)),
{
    if let Some(v) = value {
        push_text(args, flag.to_owned());
        push_text(args, v.clone());
    }
}

/// The arguments to start the monitor with.
pub fn command_args(config: &RadeontopConfig) -> (args: Vec<String>)
    ensures
        texts(args@) == dump_args(
            config.interval as nat,
            config.mem,
            text_of(config.bus),
            text_of(config.path),
            text_of(config.ticks),
        ),
{
    let mut args: Vec<String> = Vec::new();
    assert(texts(args@) =~= Seq::<Seq<char>>::empty());
    push_text(&mut args, "--dump-interval".to_owned());
    push_text(&mut args, decimal(config.interval as i128));
    push_text(&mut args, "--dump-format".to_owned());
    push_text(&mut args, "json".to_owned());
    push_text(&mut args, "--dump".to_owned());
    push_text(&mut args, "-".to_owned());
    if config.mem {
        push_text(&mut args, "--mem".to_owned());
    }
    push_option(&mut args, "--bus", &config.bus);
    push_option(&mut args, "--path", &config.path);
    push_option(&mut args, "--ticks", &config.ticks);
    args
}

/// How urgent what the segment shows is.
#[derive(Debug, Clone, Copy, PartialEq, Eq, Structural)]
pub enum State {
    Idle,
    Info,
    Warning,
    Critical,
}

/// The tier of a reading on a ladder of three cutoffs: the number of the
/// highest cutoff that it has reached, counted from one, or zero.
pub open spec fn ladder_tier(reading: nat, info: nat, warning: nat, critical: nat) -> nat {
    if reading >= critical {
        3
    } else if reading >= warning {
        2
    } else if reading >= info {
        1
    } else {
        0
    }
}

/// The state of a tier.
pub open spec fn state_of_tier(tier: nat) -> State {
    if tier == 0 {
        State::Idle
    } else if tier == 1 {
        State::Info
    } else if tier == 2 {
        State::Warning
    } else {
        State::Critical
    }
}

/// The larger of two tiers.
pub open spec fn higher_tier(a: nat, b: nat) -> nat {
    if a >= b {
        a
    } else {
        b
    }
}

/// The tier of a reading on a ladder of three cutoffs.
pub fn tier(reading: usize, info: usize, warning: usize, critical: usize) -> (tier: u8)
    ensures
        tier == ladder_tier(reading as nat, info as nat, warning as nat, critical as nat),
        tier <= 3,
{
    if reading >= critical {
        3
    } else if reading >= warning {
        2
    } else if reading >= info {
        1
    } else {
        0
    }
}

/// On a ladder whose cutoffs ascend, the tiers are the four ranges that the
/// cutoffs part the readings into, and a higher reading is never on a lower
/// tier.
pub proof fn lemma_tier_ranges(reading: nat, other: nat, info: nat, warning: nat, critical: nat)
    requires
        info <= warning <= critical,
    ensures
        ladder_tier(reading, info, warning, critical) == 0 <==> reading < info,
        ladder_tier(reading, info, warning, critical) == 1 <==> info <= reading < warning,
        ladder_tier(reading, info, warning, critical) == 2 <==> warning <= reading < critical,
        ladder_tier(reading, info, warning, critical) == 3 <==> critical <= reading,
        reading <= other ==> ladder_tier(reading, info, warning, critical) <= ladder_tier(
            other,
            info,
            warning,
            critical,
        ),
{
}

/// A utilization. The monitor gives it as a fraction of one; it is shown and
/// judged in percent.
#[derive(Debug, Clone, Copy, PartialEq, Eq, Structural)]
pub struct Percentage {
    /// The bit pattern of the fraction, a double, as the monitor gave it.
    pub fraction: u64,
    /// The bit pattern of a hundred times the fraction, a double.
    pub percent: u64,
    /// The whole percent nearest to it.
    pub rounded: usize,
}

/// The use of one memory.
#[derive(Debug, Clone, Copy, PartialEq, Eq, Structural)]
pub struct Ram {
    pub used_percentage: Percentage,
    pub used_bytes: usize,
    pub max_bytes: usize,
}

/// The state of one clock; the frequencies are the bit patterns of doubles.
#[derive(Debug, Clone, Copy, PartialEq, Eq, Structural)]
pub struct Clock {
    pub used_percentage: Percentage,
    pub used_hz: u64,
    pub max_hz: u64,
}

/// The percentage zero.
pub open spec fn zero_percentage() -> Percentage {
    Percentage { fraction: 0, percent: 0, rounded: 0 }
}

/// A memory of which nothing is known: all zero.
pub open spec fn zero_ram() -> Ram {
    Ram { used_percentage: zero_percentage(), used_bytes: 0, max_bytes: 0 }
}

/// A clock of which nothing is known: all zero.
pub open spec fn zero_clock() -> Clock {
    Clock { used_percentage: zero_percentage(), used_hz: 0, max_hz: 0 }
}

impl Default for Percentage {
    fn default() -> (zero: Percentage)
        ensures
            zero == zero_percentage(),
    {
        Percentage { fraction: 0, percent: 0, rounded: 0 }
    }
}

impl Default for Ram {
    fn default() -> (zero: Ram)
        ensures
            zero == zero_ram(),
    {
        Ram { used_percentage: Percentage { fraction: 0, percent: 0, rounded: 0 }, used_bytes: 0, max_bytes: 0 }
    }
}

impl Default for Clock {
    fn default() -> (zero: Clock)
        ensures
            zero == zero_clock(),
    {
        Clock { used_percentage: Percentage { fraction: 0, percent: 0, rounded: 0 }, used_hz: 0, max_hz: 0 }
    }
}

/// One sample of the monitor. The timestamp is the bit pattern of a double.
#[derive(Debug, Clone, Copy, PartialEq, Eq, Structural)]
pub struct RadeontopDataDump {
    pub timestamp: u64,
    pub bus: usize,
    /// Graphics pipe
    pub gpu: Percentage,
    /// Event Engine
    pub ee: Percentage,
    /// Vertex Grouper + Tesselator
    pub vgt: Percentage,
    /// Texture Addresser
    pub ta: Percentage,
    /// Texture Cache
    pub tc: Percentage,
    /// Shader Export
    pub sx: Percentage,
    /// Sequencer Instruction Cache
    pub sh: Percentage,
    /// Shader Interpolator
    pub spi: Percentage,
    /// Shader Memory Exchange
    pub smx: Percentage,
    /// Scan Converter
    pub sc: Percentage,
    /// Primitive Assembly
    pub pa: Percentage,
    /// Depth Block
    pub db: Percentage,
    /// Color Block
    pub cb: Percentage,
    /// Clip Rectangle
    pub cr: Percentage,
    /// Video Ram
    pub vram: Ram,
    /// Graphics Translation Table
    pub gtt: Ram,
    /// Memory Clock
    pub mclk: Clock,
    /// Shader Clock
    pub sclk: Clock,
}

/// One sample as a line of the monitor carries it: some of its fields may
/// be absent.
#[derive(Debug, Clone, Copy, PartialEq, Eq, Structural)]
pub struct RecordFields {
    pub timestamp: u64,
    pub bus: usize,
    pub gpu: Percentage,
    pub ee: Percentage,
    pub vgt: Percentage,
    pub ta: Percentage,
    pub tc: Option<Percentage>,
    pub sx: Percentage,
    pub sh: Percentage,
    pub spi: Percentage,
    pub smx: Option<Percentage>,
    pub sc: Percentage,
    pub pa: Percentage,
    pub db: Percentage,
    pub cb: Percentage,
    pub cr: Option<Percentage>,
    pub vram: Option<Ram>,
    pub gtt: Option<Ram>,
    pub mclk: Option<Clock>,
    pub sclk: Option<Clock>,
}

/// A percentage, or zero where it is absent.
pub open spec fn percentage_or_zero(p: Option<Percentage>) -> Percentage {
    match p {
        Some(p) => p,
        None => zero_percentage(),
    }
}

/// A memory, or the all-zero one where it is absent.
pub open spec fn ram_or_zero(r: Option<Ram>) -> Ram {
    match r {
        Some(r) => r,
        None => zero_ram(),
    }
}

/// A clock, or the all-zero one where it is absent.
pub open spec fn clock_or_zero(c: Option<Clock>) -> Clock {
    match c {
        Some(c) => c,
        None => zero_clock(),
    }
}

/// The sample that a line's fields give: what is present as it is, what is
/// absent as zero.
pub open spec fn completed(fields: RecordFields) -> RadeontopDataDump {
    RadeontopDataDump {
        timestamp: fields.timestamp,
        bus: fields.bus,
        gpu: fields.gpu,
        ee: fields.ee,
        vgt: fields.vgt,
        ta: fields.ta,
        tc: percentage_or_zero(fields.tc),
        sx: fields.sx,
        sh: fields.sh,
        spi: fields.spi,
        smx: percentage_or_zero(fields.smx),
        sc: fields.sc,
        pa: fields.pa,
        db: fields.db,
        cb: fields.cb,
        cr: percentage_or_zero(fields.cr),
        vram: ram_or_zero(fields.vram),
        gtt: ram_or_zero(fields.gtt),
        mclk: clock_or_zero(fields.mclk),
        sclk: clock_or_zero(fields.sclk),
    }
}

impl RadeontopDataDump {
    /// The sample of a line's fields. An absent field is no fault: it is
    /// zero in the sample.
    pub fn from_fields(fields: RecordFields) -> (sample: RadeontopDataDump)
        ensures
            sample == completed(fields),
    {
        RadeontopDataDump {
            timestamp: fields.timestamp,
            bus: fields.bus,
            gpu: fields.gpu,
            ee: fields.ee,
            vgt: fields.vgt,
            ta: fields.ta,
            tc: match fields.tc {
                Some(p) => p,
                None => Percentage::default(),
            },
            sx: fields.sx,
            sh: fields.sh,
            spi: fields.spi,
            smx: match fields.smx {
                Some(p) => p,
                None => Percentage::default(),
            },
            sc: fields.sc,
            pa: fields.pa,
            db: fields.db,
            cb: fields.cb,
            cr: match fields.cr {
                Some(p) => p,
                None => Percentage::default(),
            },
            vram: match fields.vram {
                Some(r) => r,
                None => Ram::default(),
            },
            gtt: match fields.gtt {
                Some(r) => r,
                None => Ram::default(),
            },
            mclk: match fields.mclk {
                Some(c) => c,
                None => Clock::default(),
            },
            sclk: match fields.sclk {
                Some(c) => c,
                None => Clock::default(),
            },
        }
    }
}

/// The names and models of a sequence of named values.
pub open spec fn entries(values: Seq<(String, Value)>) -> Seq<(Seq<char>, ValueView)> {
    values.map_values(|e: (String, Value)| (e.0@, e.1@))
}

/// The bus number as it is shown: two hexadecimal digits or more, as text.
pub open spec fn bus_value(bus: usize) -> ValueView {
    ValueView {
        unit: UnitView::Unitless,
        min_width: 0,
        icon: None,
        payload: PayloadView::Text(hex_text(bus as nat, 2)),
    }
}

/// A utilization as it is shown: a floating-point percentage.
pub open spec fn percent_value(p: Percentage) -> ValueView {
    ValueView {
        unit: UnitView::Percents,
        min_width: 3,
        icon: None,
        payload: PayloadView::Float(p.percent),
    }
}

/// A size as it is shown: an integer number of bytes.
pub open spec fn bytes_value(size: usize) -> ValueView {
    ValueView {
        unit: UnitView::Bytes,
        min_width: 2,
        icon: None,
        payload: PayloadView::Integer(size as i64 as int),
    }
}

/// A frequency as it is shown: a floating-point number of hertz.
pub open spec fn hertz_value(bits: u64) -> ValueView {
    ValueView {
        unit: UnitView::Hertz,
        min_width: 3,
        icon: None,
        payload: PayloadView::Float(bits),
    }
}

/// The named values of a memory, under the given names.
pub open spec fn with_ram(
    values: Seq<(Seq<char>, ValueView)>,
    ram: Ram,
    percentage: Seq<char>,
    used: Seq<char>,
    max: Seq<char>,
) -> Seq<(Seq<char>, ValueView)> {
    values.push((percentage, percent_value(ram.used_percentage))).push(
        (used, bytes_value(ram.used_bytes)),
    ).push((max, bytes_value(ram.max_bytes)))
}

/// The named values of a clock, under the given names.
pub open spec fn with_clock(
    values: Seq<(Seq<char>, ValueView)>,
    clock: Clock,
    percentage: Seq<char>,
    used: Seq<char>,
    max: Seq<char>,
) -> Seq<(Seq<char>, ValueView)> {
    values.push((percentage, percent_value(clock.used_percentage))).push(
        (used, hertz_value(clock.used_hz)),
    ).push((max, hertz_value(clock.max_hz)))
}

/// Everything that a sample gives to show, each value under its name: the
/// bus, the fourteen utilizations, then the two memories and the two clocks.
pub open spec fn named_values(sample: RadeontopDataDump) -> Seq<(Seq<char>, ValueView)> {
    let stages = Seq::<(Seq<char>, ValueView)>::empty().push(("bus"@, bus_value(sample.bus))).push(
        ("gpu"@, percent_value(sample.gpu)),
    ).push(("ee"@, percent_value(sample.ee))).push(("vgt"@, percent_value(sample.vgt))).push(
        ("ta"@, percent_value(sample.ta)),
    ).push(("tc"@, percent_value(sample.tc))).push(("sx"@, percent_value(sample.sx))).push(
        ("sh"@, percent_value(sample.sh)),
    ).push(("spi"@, percent_value(sample.spi))).push(("smx"@, percent_value(sample.smx))).push(
        ("sc"@, percent_value(sample.sc)),
    ).push(("pa"@, percent_value(sample.pa))).push(("db"@, percent_value(sample.db))).push(
        ("cb"@, percent_value(sample.cb)),
    ).push(("cr"@, percent_value(sample.cr)));
    let memories = with_ram(
        with_ram(
            stages,
            sample.vram,
            "vram_used_percentage"@,
            "vram_used_bytes"@,
            "vram_max_bytes"@,
        ),
        sample.gtt,
        "gtt_used_percentage"@,
        "gtt_used_bytes"@,
        "gtt_max_bytes"@,
    );
    with_clock(
        with_clock(
            memories,
            sample.mclk,
            "mclk_used_percentage"@,
            "mclk_used_hz"@,
            "mclk_max_hz"@,
        ),
        sample.sclk,
        "sclk_used_percentage"@,
        "sclk_used_hz"@,
        "sclk_max_hz"@,
    )
}

fn push_named(values: &mut Vec<(String, Value)>, name: &str, value: Value)
    ensures
        entries(final(values)@) == entries(old(values)@).push((name@, value@)),
{
    values.push((name.to_owned(), value));
    assert(entries(values@) =~= entries(old(values)@).push((name@, value@)));
}

fn push_percent(values: &mut Vec<(String, Value)>, name: &str, p: Percentage)
    ensures
        entries(final(values)@) == entries(old(values)@).push((name@, percent_value(p))),
{
    push_named(values, name, Value::from_float(p.percent).percents());
}

fn push_ram(values: &mut Vec<(String, Value)>, ram: &Ram, percentage: &str, used: &str, max: &str)
    ensures
        entries(final(values)@) == with_ram(entries(old(values)@), *ram, percentage@, used@, max@),
{
    push_percent(values, percentage, ram.used_percentage);
    push_named(values, used, Value::from_integer(ram.used_bytes as i64).bytes());
    push_named(values, max, Value::from_integer(ram.max_bytes as i64).bytes());
}

fn push_clock(
    values: &mut Vec<(String, Value)>,
    clock: &Clock,
    percentage: &str,
    used: &str,
    max: &str,
)
    ensures
        entries(final(values)@) == with_clock(
            entries(old(values)@),
            *clock,
            percentage@,
            used@,
            max@,
        ),
{
    push_percent(values, percentage, clock.used_percentage);
    push_named(values, used, Value::from_float(clock.used_hz).hertz());
    push_named(values, max, Value::from_float(clock.max_hz).hertz());
}

/// The values that a sample gives to show, each under its name.
pub fn values_of(sample: &RadeontopDataDump) -> (values: Vec<(String, Value)>)
    ensures
        entries(values@) == named_values(*sample),
{
    let mut values: Vec<(String, Value)> = Vec::new();
    assert(entries(values@) =~= Seq::<(Seq<char>, ValueView)>::empty());
    push_named(&mut values, "bus", Value::from_string(hex(sample.bus, 2)));
    push_percent(&mut values, "gpu", sample.gpu);
    push_percent(&mut values, "ee", sample.ee);
    push_percent(&mut values, "vgt", sample.vgt);
    push_percent(&mut values, "ta", sample.ta);
    push_percent(&mut values, "tc", sample.tc);
    push_percent(&mut values, "sx", sample.sx);
    push_percent(&mut values, "sh", sample.sh);
    push_percent(&mut values, "spi", sample.spi);
    push_percent(&mut values, "smx", sample.smx);
    push_percent(&mut values, "sc", sample.sc);
    push_percent(&mut values, "pa", sample.pa);
    push_percent(&mut values, "db", sample.db);
    push_percent(&mut values, "cb", sample.cb);
    push_percent(&mut values, "cr", sample.cr);
    push_ram(
        &mut values,
        &sample.vram,
        "vram_used_percentage",
        "vram_used_bytes",
        "vram_max_bytes",
    );
    push_ram(&mut values, &sample.gtt, "gtt_used_percentage", "gtt_used_bytes", "gtt_max_bytes");
    push_clock(&mut values, &sample.mclk, "mclk_used_percentage", "mclk_used_hz", "mclk_max_hz");
    push_clock(&mut values, &sample.sclk, "sclk_used_percentage", "sclk_used_hz", "sclk_max_hz");
    values
}

/// Where the first value of the given name stands, if there is one.
pub fn find_value(values: &Vec<(String, Value)>, name: &str) -> (found: Option<usize>)
    ensures
        match found {
            Some(at) => at < values@.len() && values@[at as int].0@ == name@ && forall|j: int|
                0 <= j < at ==> (#[trigger] values@[j]).0@ != name@,
            None => forall|j: int| 0 <= j < values@.len() ==> (#[trigger] values@[j]).0@ != name@,
        },
{
    let wanted = name.to_owned();
    let mut at: usize = 0;
    while at < values.len()
        invariant
            at <= values@.len(),
            wanted@ == name@,
            forall|j: int| 0 <= j < at ==> (#[trigger] values@[j]).0@ != name@,
        decreases values@.len() - at,
    {
        if values[at].0 == wanted {
            return Some(at);
        }
        at = at + 1;
    }
    None
}

/// What the segment shows of one sample.
#[derive(Debug, Clone)]
pub struct Rendering {
    /// How urgent it is.
    pub state: State,
    /// The values to fill the format with, each under its name.
    pub values: Vec<(String, Value)>,
}

/// The segment: its place in the bar, its cutoffs and its format.
#[derive(Debug, Clone)]
pub struct Radeontop {
    pub id: usize,
    /// In whole seconds.
    pub update_interval: u64,
    pub gpu_info: usize,
    pub gpu_warning: usize,
    pub gpu_critical: usize,
    pub vram_info: usize,
    pub vram_warning: usize,
    pub vram_critical: usize,
    pub format: String,
}

impl Radeontop {
    /// The tier of a sample on this segment's two ladders: the higher of the
    /// tier of the memory in use and the tier of the graphics pipe.
    pub open spec fn sample_tier(&self, sample: RadeontopDataDump) -> nat {
        higher_tier(
            ladder_tier(
                sample.vram.used_percentage.rounded as nat,
                self.vram_info as nat,
                self.vram_warning as nat,
                self.vram_critical as nat,
            ),
            ladder_tier(
                sample.gpu.rounded as nat,
                self.gpu_info as nat,
                self.gpu_warning as nat,
                self.gpu_critical as nat,
            ),
        )
    }

    /// The segment of a configuration, at place `id`.
    pub fn new(id: usize, block_config: RadeontopConfig) -> (block: Radeontop)
        ensures
            block.id == id,
            block.update_interval == block_config.interval,
            block.gpu_info == block_config.gpu_info,
            block.gpu_warning == block_config.gpu_warning,
            block.gpu_critical == block_config.gpu_critical,
            block.vram_info == block_config.vram_info,
            block.vram_warning == block_config.vram_warning,
            block.vram_critical == block_config.vram_critical,
            block.format@ == block_config.format@,
    {
        Radeontop {
            id,
            update_interval: block_config.interval,
            gpu_info: block_config.gpu_info,
            gpu_warning: block_config.gpu_warning,
            gpu_critical: block_config.gpu_critical,
            vram_info: block_config.vram_info,
            vram_warning: block_config.vram_warning,
            vram_critical: block_config.vram_critical,
            format: block_config.format,
        }
    }

    /// How urgent a sample is: the state of the higher of its two tiers.
    pub fn state(&self, sample: &RadeontopDataDump) -> (state: State)
        ensures
            state == state_of_tier(self.sample_tier(*sample)),
    {
        let vram = tier(
            sample.vram.used_percentage.rounded,
            self.vram_info,
            self.vram_warning,
            self.vram_critical,
        );
        let gpu = tier(sample.gpu.rounded, self.gpu_info, self.gpu_warning, self.gpu_critical);
        let highest: u8 = if vram >= gpu {
            vram
        } else {
            gpu
        };
        if highest == 0 {
            State::Idle
        } else if highest == 1 {
            State::Info
        } else if highest == 2 {
            State::Warning
        } else {
            State::Critical
        }
    }

    /// What to show of the latest sample: nothing while there is none yet,
    /// else its state and its named values.
    pub fn update(&self, last_update: &Option<RadeontopDataDump>) -> (shown: Option<Rendering>)
        ensures
            match (*last_update, shown) {
                (Some(sample), Some(rendering)) => rendering.state == state_of_tier(
                    self.sample_tier(sample),
                ) && entries(rendering.values@) == named_values(sample),
                (None, None) => true,
                _ => false,
            },
    {
        match last_update {
            Some(sample) => Some(Rendering { state: self.state(sample), values: values_of(sample) }),
            None => None,
        }
    }

    /// The place of the segment in the bar.
    pub fn id(&self) -> (id: usize)
        ensures
            id == self.id,
    {
        self.id
    }
}

/// The state of a sample is at least the state of each ladder alone, and it
/// is the state of one of them.
pub proof fn lemma_state_is_highest(block: Radeontop, sample: RadeontopDataDump)
    ensures
        ({
            let vram = ladder_tier(
                sample.vram.used_percentage.rounded as nat,
                block.vram_info as nat,
                block.vram_warning as nat,
                block.vram_critical as nat,
            );
            let gpu = ladder_tier(
                sample.gpu.rounded as nat,
                block.gpu_info as nat,
                block.gpu_warning as nat,
                block.gpu_critical as nat,
            );
            let both = block.sample_tier(sample);
            both >= vram && both >= gpu && (both == vram || both == gpu) && both <= 3
        }),
{
}

/// A sample gives twenty-seven values, and no two of them have one name.
pub proof fn lemma_names_differ(sample: RadeontopDataDump, i: int, j: int)
    requires
        0 <= i < j < 27,
    ensures
        named_values(sample).len() == 27,
        named_values(sample)[i].0 != named_values(sample)[j].0,
{
    reveal_strlit("bus");
    reveal_strlit("gpu");
    reveal_strlit("ee");
    reveal_strlit("vgt");
    reveal_strlit("ta");
    reveal_strlit("tc");
    reveal_strlit("sx");
    reveal_strlit("sh");
    reveal_strlit("spi");
    reveal_strlit("smx");
    reveal_strlit("sc");
    reveal_strlit("pa");
    reveal_strlit("db");
    reveal_strlit("cb");
    reveal_strlit("cr");
    reveal_strlit("vram_used_percentage");
    reveal_strlit("vram_used_bytes");
    reveal_strlit("vram_max_bytes");
    reveal_strlit("gtt_used_percentage");
    reveal_strlit("gtt_used_bytes");
    reveal_strlit("gtt_max_bytes");
    reveal_strlit("mclk_used_percentage");
    reveal_strlit("mclk_used_hz");
    reveal_strlit("mclk_max_hz");
    reveal_strlit("sclk_used_percentage");
    reveal_strlit("sclk_used_hz");
    reveal_strlit("sclk_max_hz");
    let names = named_values(sample);
    assert(names.len() == 27);
    let a = names[i].0;
    let b = names[j].0;
    if a.len() == b.len() {
        assert(a[0] != b[0] || a[1] != b[1] || (a.len() > 2 && a[2] != b[2]) || (a.len() > 10
            && a[10] != b[10]));
    }
}

} // verus!
