pub mod deposit;
pub mod initialize;
pub mod lock;
pub mod stake;
pub mod unlock;
pub mod unstake;
pub mod withdraw;
