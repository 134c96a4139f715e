pub mod cell_info;
pub mod chart;
pub mod data;
pub mod fk;
pub mod navigation;
pub mod search;
pub mod statistics;
pub mod visible;

pub use data::CellPosition;
pub use data::ChartData;
pub use data::ChartItem;
pub use data::ColumnStats;
pub use data::SearchState;
pub use data::TableViewer;
pub use visible::TableViewData;
pub use cell_info::CellInfo;
pub use fk::ForeignKeyLookupResult;
