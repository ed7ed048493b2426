//! The "metrics" key: shows one of the player's progression counters,
//! with thousands separators, over a per-metric background.

use crate::thousands::{separated_u32, thousands_separated};
use vstd::prelude::*;

verus! {

/// The Stream Deck action that shows a metric.
pub struct MetricsAction;

/// Which counter a metrics key shows.
#[derive(Clone, Copy, Debug, PartialEq, Eq, Structural)]
pub enum Metric {
    Vanguard,
    Gambit,
    Crucible,
    Trials,
    IronBanner,
    Triumphs,
    Gunsmith,
    BattlePass,
}

/// The counters DIM reports, and the icon of the current seasonal artifact.
#[derive(Clone, Debug)]
pub struct Metrics {
    pub vanguard: u32,
    pub gambit: u32,
    pub crucible: u32,
    pub trials: u32,
    pub iron_banner: u32,
    pub triumphs: u32,
    pub gunsmith: u32,
    pub battle_pass: u32,
    pub artifact_icon: Option<String>,
}

/// Per-key settings of a metrics key.
#[derive(Clone, Debug)]
pub struct MetricsSettings {
    pub metric: Option<Metric>,
}

/// Where the background of a metrics key comes from.
#[derive(Clone, Debug)]
pub enum MetricImage {
    /// A bundled image file, by path.
    File(String),
    /// The artifact icon, to be downloaded (absent when DIM sent none);
    /// it is drawn under a shadow.
    Artifact(Option<String>),
}

/// What a metrics key shows: the label text and its background.
#[derive(Clone, Debug)]
pub struct MetricRender {
    pub label: String,
    pub image: MetricImage,
}

/// The counter that `metric` selects.
pub open spec fn metric_value_of(metric: Metric, metrics: Metrics) -> u32 {
    match metric {
        Metric::Vanguard => metrics.vanguard,
        Metric::Gambit => metrics.gambit,
        Metric::Crucible => metrics.crucible,
        Metric::Trials => metrics.trials,
        Metric::IronBanner => metrics.iron_banner,
        Metric::Triumphs => metrics.triumphs,
        Metric::Gunsmith => metrics.gunsmith,
        Metric::BattlePass => metrics.battle_pass,
    }
}

/// The variant's name as written in the source, which names its image file.
pub open spec fn metric_name(metric: Metric) -> Seq<char> {
    match metric {
        Metric::Vanguard => "Vanguard"@,
        Metric::Gambit => "Gambit"@,
        Metric::Crucible => "Crucible"@,
        Metric::Trials => "Trials"@,
        Metric::IronBanner => "IronBanner"@,
        Metric::Triumphs => "Triumphs"@,
        Metric::Gunsmith => "Gunsmith"@,
        Metric::BattlePass => "BattlePass"@,
    }
}

/// Path of the bundled background image of a metric.
pub open spec fn metric_image_path(metric: Metric) -> Seq<char> {
    "./images/metrics/"@ + metric_name(metric) + ".png"@
}

/// `render` is what a key showing `metric` of `metrics` displays: the
/// selected counter with thousands separators, over the artifact icon for
/// the battle pass and over the metric's bundled image otherwise.
pub open spec fn renders(metric: Metric, metrics: Metrics, render: MetricRender) -> bool {
    &&& render.label@ == thousands_separated(metric_value_of(metric, metrics) as nat)
    &&& match metric {
        Metric::BattlePass => render.image == MetricImage::Artifact(metrics.artifact_icon),
        _ => render.image matches MetricImage::File(path) && path@ == metric_image_path(metric),
    }
}

/// Whether a key with background `image` is drawn: always over a bundled
/// file, and over the artifact icon only when it could be fetched.
pub open spec fn drawn(image: MetricImage, artifact_fetched: bool) -> bool {
    match image {
        MetricImage::File(_) => true,
        MetricImage::Artifact(_) => artifact_fetched,
    }
}

/// A key over a bundled file is always drawn; a key over the artifact icon
/// only when the icon was fetched.
pub proof fn lemma_drawn_unless_artifact_missing(image: MetricImage, artifact_fetched: bool)
    ensures
        image is File ==> drawn(image, artifact_fetched),
        image is Artifact ==> (drawn(image, artifact_fetched) <==> artifact_fetched),
{
}

impl MetricRender {
    /// Whether the key is drawn (and its image sent) once the artifact icon
    /// was fetched or not; the fetch only matters for the battle pass.
    pub fn is_drawn(&self, artifact_fetched: bool) -> (draw: bool)
        ensures
            draw == drawn(self.image, artifact_fetched),
    {
        match &self.image {
            MetricImage::File(_) => true,
            MetricImage::Artifact(_) => artifact_fetched,
        }
    }
}

/// Each metric shows its own counter with thousands separators; the battle
/// pass is drawn over the artifact icon and every other metric over the
/// bundled image named after it.
pub proof fn lemma_each_metric_shows_its_counter(metric: Metric, metrics: Metrics, render: MetricRender)
    requires
        renders(metric, metrics, render),
    ensures
        metric == Metric::Vanguard ==> render.label@ == thousands_separated(metrics.vanguard as nat),
        metric == Metric::Gambit ==> render.label@ == thousands_separated(metrics.gambit as nat),
        metric == Metric::Crucible ==> render.label@ == thousands_separated(metrics.crucible as nat),
        metric == Metric::Trials ==> render.label@ == thousands_separated(metrics.trials as nat),
        metric == Metric::IronBanner ==> render.label@ == thousands_separated(metrics.iron_banner as nat),
        metric == Metric::Triumphs ==> render.label@ == thousands_separated(metrics.triumphs as nat),
        metric == Metric::Gunsmith ==> render.label@ == thousands_separated(metrics.gunsmith as nat),
        metric == Metric::BattlePass ==> render.label@ == thousands_separated(metrics.battle_pass as nat),
        metric == Metric::BattlePass ==> render.image == MetricImage::Artifact(metrics.artifact_icon),
        metric == Metric::Vanguard ==> (render.image matches MetricImage::File(path)
            && path@ == "./images/metrics/Vanguard.png"@),
        metric == Metric::Gambit ==> (render.image matches MetricImage::File(path)
            && path@ == "./images/metrics/Gambit.png"@),
        metric == Metric::Crucible ==> (render.image matches MetricImage::File(path)
            && path@ == "./images/metrics/Crucible.png"@),
        metric == Metric::Trials ==> (render.image matches MetricImage::File(path)
            && path@ == "./images/metrics/Trials.png"@),
        metric == Metric::IronBanner ==> (render.image matches MetricImage::File(path)
            && path@ == "./images/metrics/IronBanner.png"@),
        metric == Metric::Triumphs ==> (render.image matches MetricImage::File(path)
            && path@ == "./images/metrics/Triumphs.png"@),
        metric == Metric::Gunsmith ==> (render.image matches MetricImage::File(path)
            && path@ == "./images/metrics/Gunsmith.png"@),
{
    reveal_strlit("./images/metrics/");
    reveal_strlit(".png");
    reveal_strlit("Vanguard");
    reveal_strlit("./images/metrics/Vanguard.png");
    reveal_strlit("Gambit");
    reveal_strlit("./images/metrics/Gambit.png");
    reveal_strlit("Crucible");
    reveal_strlit("./images/metrics/Crucible.png");
    reveal_strlit("Trials");
    reveal_strlit("./images/metrics/Trials.png");
    reveal_strlit("IronBanner");
    reveal_strlit("./images/metrics/IronBanner.png");
    reveal_strlit("Triumphs");
    reveal_strlit("./images/metrics/Triumphs.png");
    reveal_strlit("Gunsmith");
    reveal_strlit("./images/metrics/Gunsmith.png");
    assert("./images/metrics/"@ + "Vanguard"@ + ".png"@ =~= "./images/metrics/Vanguard.png"@);
    assert("./images/metrics/"@ + "Gambit"@ + ".png"@ =~= "./images/metrics/Gambit.png"@);
    assert("./images/metrics/"@ + "Crucible"@ + ".png"@ =~= "./images/metrics/Crucible.png"@);
    assert("./images/metrics/"@ + "Trials"@ + ".png"@ =~= "./images/metrics/Trials.png"@);
    assert("./images/metrics/"@ + "IronBanner"@ + ".png"@ =~= "./images/metrics/IronBanner.png"@);
    assert("./images/metrics/"@ + "Triumphs"@ + ".png"@ =~= "./images/metrics/Triumphs.png"@);
    assert("./images/metrics/"@ + "Gunsmith"@ + ".png"@ =~= "./images/metrics/Gunsmith.png"@);
}

/// The counter that `metric` selects.
pub fn metric_value(metric: Metric, metrics: &Metrics) -> (value: u32)
    ensures
        value == metric_value_of(metric, *metrics),
{
    match metric {
        Metric::Vanguard => metrics.vanguard,
        Metric::Gambit => metrics.gambit,
        Metric::Crucible => metrics.crucible,
        Metric::Trials => metrics.trials,
        Metric::IronBanner => metrics.iron_banner,
        Metric::Triumphs => metrics.triumphs,
        Metric::Gunsmith => metrics.gunsmith,
        Metric::BattlePass => metrics.battle_pass,
    }
}

fn metric_name_str(metric: Metric) -> (name: &'static str)
    ensures
        name@ == metric_name(metric),
{
    match metric {
        Metric::Vanguard => "Vanguard",
        Metric::Gambit => "Gambit",
        Metric::Crucible => "Crucible",
        Metric::Trials => "Trials",
        Metric::IronBanner => "IronBanner",
        Metric::Triumphs => "Triumphs",
        Metric::Gunsmith => "Gunsmith",
        Metric::BattlePass => "BattlePass",
    }
}

/// Path of the bundled background image of a metric.
pub fn metric_image_file(metric: Metric) -> (path: String)
    ensures
        path@ == metric_image_path(metric),
{
    let mut path = String::from_str("./images/metrics/");
    path.append(metric_name_str(metric));
    path.append(".png");
    path
}

/// What a key showing `metric` displays, given the reported counters.
pub fn render_plan(metric: Metric, metrics: Metrics) -> (render: MetricRender)
    ensures
        renders(metric, metrics, render),
{
    let label = separated_u32(metric_value(metric, &metrics));
    let image = match metric {
        Metric::BattlePass => MetricImage::Artifact(metrics.artifact_icon),
        _ => MetricImage::File(metric_image_file(metric)),
    };
    MetricRender { label, image }
}

impl MetricsAction {
    /// Decides what a metrics key shows once its settings and DIM's counters
    /// are known: nothing unless both are present and the key has a metric.
    pub fn plan_update(&self, settings: Option<MetricsSettings>, metrics: Option<Metrics>) -> (plan:
        Option<MetricRender>)
        ensures
            match (settings, metrics) {
                (Some(s), Some(m)) => match s.metric {
                    Some(metric) => plan matches Some(render) && renders(metric, m, render),
                    None => plan is None,
                },
                _ => plan is None,
            },
    {
        match (settings, metrics) {
            (Some(s), Some(m)) => match s.metric {
                Some(metric) => Some(render_plan(metric, m)),
                None => None,
            },
            _ => None,
        }
    }
}

} // verus!
