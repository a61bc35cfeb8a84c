pub mod average_true_range;
pub mod bollinger_bands;
pub mod efficiency_ratio;
pub mod exponential_moving_average;
pub mod fast_stochastic;
pub mod heikin_ashi;
pub mod ichimoku;
pub mod maximum;
pub mod minimum;
pub mod moving_average_convergence_divergence;
pub mod on_balance_volume;
pub mod rate_of_change;
pub mod relative_strength_index;
pub mod relative_strength_index_smma;
pub mod simple_moving_average;
pub mod slow_stochastic;
pub mod smoothed_or_modified_moving_average;
pub mod standard_deviation;
pub mod true_range;

pub use self::average_true_range::AverageTrueRange;
pub use self::bollinger_bands::{BollingerBands, BollingerBandsOutput};
pub use self::efficiency_ratio::EfficiencyRatio;
pub use self::exponential_moving_average::ExponentialMovingAverage;
pub use self::fast_stochastic::FastStochastic;
pub use self::heikin_ashi::{HeikinAshi, HeikinAshiCandle, HeikinAshiColor};
pub use self::ichimoku::{CircularQueue, Ichimoku, IchimokuOutput, KumoColor};
pub use self::maximum::Maximum;
pub use self::minimum::Minimum;
pub use self::moving_average_convergence_divergence::MovingAverageConvergenceDivergence;
pub use self::on_balance_volume::OnBalanceVolume;
pub use self::rate_of_change::RateOfChange;
pub use self::relative_strength_index::RelativeStrengthIndex;
pub use self::relative_strength_index_smma::RelativeStrengthIndexSmma;
pub use self::simple_moving_average::SimpleMovingAverage;
pub use self::slow_stochastic::SlowStochastic;
pub use self::smoothed_or_modified_moving_average::SmoothedOrModifiedMovingAverage;
pub use self::standard_deviation::StandardDeviation;
pub use self::true_range::TrueRange;
