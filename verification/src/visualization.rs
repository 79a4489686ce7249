//! Dashboard and chart configuration data: the records a visualization
//! front end exchanges with the engine's surroundings. Rendering itself is
//! outside the engine; these are its plain inputs and outputs.

use vstd::prelude::*;
use std::collections::HashMap;

verus! {

/// How widgets are laid out on a dashboard.
#[derive(Clone, Copy, Debug, PartialEq, Eq, Structural)]
pub enum LayoutType {
    Grid,
    Masonry,
    Flex,
    Custom,
}

/// Grid layout parameters.
#[derive(Clone, Copy, Debug, PartialEq, Eq, Structural)]
pub struct GridConfig {
    pub columns: u32,
    pub rows: u32,
    pub gap: u32,
    pub margin: u32,
    pub min_widget_width: u32,
    pub min_widget_height: u32,
}

/// The chart or widget kinds a dashboard can hold. The geographic map
/// widget is called `GeoMap` here.
#[derive(Clone, Debug, PartialEq)]
pub enum WidgetType {
    LineChart,
    BarChart,
    PieChart,
    ScatterPlot,
    Heatmap,
    Table,
    Metric,
    Gauge,
    Sparkline,
    TreeMap,
    Sankey,
    Funnel,
    Radar,
    Candlestick,
    Histogram,
    BoxPlot,
    GeoMap,
    Network,
    Timeline,
    Calendar,
    Text,
    Image,
    Video,
    IFrame,
    Custom(String),
}

/// Where a widget sits.
#[derive(Clone, Copy, Debug, PartialEq, Eq, Structural)]
pub struct WidgetPosition {
    pub x: u32,
    pub y: u32,
    pub z_index: u32,
}

/// How large a widget is and may become.
#[derive(Clone, Debug, PartialEq)]
pub struct WidgetSize {
    pub width: u32,
    pub height: u32,
    pub min_width: u32,
    pub min_height: u32,
    pub max_width: Option<u32>,
    pub max_height: Option<u32>,
    pub resizable: bool,
}

/// Where a widget's data comes from.
#[derive(Clone, Copy, Debug, PartialEq, Eq, Structural)]
pub enum DataSourceType {
    Analytics,
    Marketplace,
    Performance,
    UserBehavior,
    CICD,
    Collaboration,
    CustomMetrics,
    Database,
    API,
    File,
    RealTime,
}

/// How to authenticate against a data source; `Unauthenticated` stands for
/// no authentication at all.
#[derive(Clone, Debug, PartialEq)]
pub enum AuthenticationConfig {
    Unauthenticated,
    ApiKey { key: String },
    Bearer { token: String },
    Basic { username: String, password: String },
    OAuth { client_id: String, client_secret: String, token_url: String },
}

/// How to reach a data source.
#[derive(Clone, Debug, PartialEq)]
pub struct ConnectionConfig {
    pub endpoint: String,
    pub authentication: AuthenticationConfig,
    pub headers: HashMap<String, String>,
    pub parameters: HashMap<String, String>,
    pub timeout: u64,
    pub retry_count: u32,
}

/// The shape of a data source's records.
#[derive(Clone, Debug, PartialEq)]
pub struct DataSchema {
    pub fields: Vec<DataField>,
    pub primary_key: Option<String>,
    pub relationships: Vec<DataRelationship>,
}

/// One field of a schema.
#[derive(Clone, Debug, PartialEq)]
pub struct DataField {
    pub name: String,
    pub field_type: DataFieldType,
    pub nullable: bool,
    pub description: Option<String>,
    pub format: Option<String>,
}

/// The primitive type of a field.
#[derive(Clone, Copy, Debug, PartialEq, Eq, Structural)]
pub enum DataFieldType {
    String,
    Integer,
    Float,
    Boolean,
    DateTime,
    Date,
    Time,
    JSON,
    Array,
}

/// A link between two schema fields.
#[derive(Clone, Debug, PartialEq)]
pub struct DataRelationship {
    pub from_field: String,
    pub to_table: String,
    pub to_field: String,
    pub relationship_type: RelationshipType,
}

/// The multiplicity of a relationship.
#[derive(Clone, Copy, Debug, PartialEq, Eq, Structural)]
pub enum RelationshipType {
    OneToOne,
    OneToMany,
    ManyToOne,
    ManyToMany,
}

/// The query language a source speaks.
#[derive(Clone, Copy, Debug, PartialEq, Eq, Structural)]
pub enum QueryType {
    SQL,
    GraphQL,
    REST,
    NoSQL,
    Custom,
}

/// Comparison operators a filter can use.
#[derive(Clone, Copy, Debug, PartialEq, Eq, Structural)]
pub enum FilterOperator {
    Equals,
    NotEquals,
    GreaterThan,
    LessThan,
    GreaterThanOrEqual,
    LessThanOrEqual,
    Contains,
    StartsWith,
    EndsWith,
    In,
    NotIn,
    IsNull,
    IsNotNull,
    Between,
    Regex,
}

/// How filter clauses combine.
#[derive(Clone, Copy, Debug, PartialEq, Eq, Structural)]
pub enum LogicalOperator {
    And,
    Or,
    Not,
}

/// One sort criterion.
#[derive(Clone, Debug, PartialEq)]
pub struct SortConfig {
    pub field: String,
    pub direction: SortDirection,
}

/// Sorting direction.
#[derive(Clone, Copy, Debug, PartialEq, Eq, Structural)]
pub enum SortDirection {
    Ascending,
    Descending,
}

/// How line ends are drawn.
#[derive(Clone, Copy, Debug, PartialEq, Eq, Structural)]
pub enum LineCapStyle {
    Round,
    Square,
    Butt,
}

/// The marker drawn at a data point.
#[derive(Clone, Debug, PartialEq)]
pub enum MarkerShape {
    Circle,
    Square,
    Triangle,
    Diamond,
    Cross,
    Plus,
    Star,
    Custom(String),
}

/// The gradient kinds a fill can use.
#[derive(Clone, Copy, Debug, PartialEq, Eq, Structural)]
pub enum GradientType {
    Linear,
    Radial,
    Conic,
}

/// The pattern kinds a fill can use.
#[derive(Clone, Debug, PartialEq)]
pub enum PatternType {
    Dots,
    Lines,
    Diagonal,
    Grid,
    Zigzag,
    Custom(String),
}

/// A palette and the roles of its colors.
#[derive(Clone, Debug, PartialEq)]
pub struct ColorScheme {
    pub scheme_type: ColorSchemeType,
    pub colors: Vec<String>,
    pub background_color: String,
    pub text_color: String,
    pub accent_color: String,
}

/// How a palette's colors relate.
#[derive(Clone, Copy, Debug, PartialEq, Eq, Structural)]
pub enum ColorSchemeType {
    Categorical,
    Sequential,
    Diverging,
    Custom,
}

/// Text weight.
#[derive(Clone, Copy, Debug, PartialEq, Eq, Structural)]
pub enum FontWeight {
    Thin,
    Light,
    Normal,
    Medium,
    Bold,
    ExtraBold,
    Black,
}

/// How value changes animate.
#[derive(Clone, Debug, PartialEq)]
pub struct AnimationConfig {
    pub enabled: bool,
    pub duration: u64,
    pub easing: EasingFunction,
    pub delay: u64,
    pub loop_animation: bool,
}

/// Animation easing curves.
#[derive(Clone, Debug, PartialEq)]
pub enum EasingFunction {
    Linear,
    EaseIn,
    EaseOut,
    EaseInOut,
    Bounce,
    Elastic,
    Custom(String),
}

/// Where a legend runs.
#[derive(Clone, Copy, Debug, PartialEq, Eq, Structural)]
pub enum LegendOrientation {
    Horizontal,
    Vertical,
}

/// What raises a tooltip.
#[derive(Clone, Copy, Debug, PartialEq, Eq, Structural)]
pub enum TooltipTrigger {
    Hover,
    Click,
    Focus,
}

/// Which interactions a widget allows.
#[derive(Clone, Debug, PartialEq)]
pub struct InteractionConfig {
    pub zoom_enabled: bool,
    pub pan_enabled: bool,
    pub selection_enabled: bool,
    pub drill_down_enabled: bool,
    pub cross_filter_enabled: bool,
    pub export_enabled: bool,
    pub click_actions: Vec<ClickAction>,
}

/// What a click on a widget does.
#[derive(Clone, Debug, PartialEq)]
pub struct ClickAction {
    pub action_type: ClickActionType,
    pub target: String,
    pub parameters: HashMap<String, String>,
}

/// The kinds of click actions.
#[derive(Clone, Debug, PartialEq)]
pub enum ClickActionType {
    NavigateTo,
    OpenModal,
    UpdateFilter,
    DrillDown,
    ExportData,
    Custom(String),
}

/// The control rendered for a dashboard filter.
#[derive(Clone, Debug, PartialEq)]
pub enum FilterType {
    Dropdown,
    MultiSelect,
    DateRange,
    NumberRange,
    Text,
    Checkbox,
    Radio,
    Slider,
    Custom(String),
}

/// Dashboard-wide switches.
#[derive(Clone, Debug, PartialEq)]
pub struct DashboardSettings {
    pub auto_refresh: bool,
    pub refresh_interval: u64,
    pub enable_animations: bool,
    pub enable_tooltips: bool,
    pub enable_legends: bool,
    pub responsive_design: bool,
    pub dark_mode: bool,
    pub high_contrast: bool,
    pub reduced_motion: bool,
    pub export_formats: Vec<ExportFormat>,
}

/// File formats a dashboard can export to.
#[derive(Clone, Copy, Debug, PartialEq, Eq, Structural)]
pub enum ExportFormat {
    PNG,
    SVG,
    PDF,
    Excel,
    CSV,
    JSON,
}

/// The surface a dashboard renders onto.
#[derive(Clone, Copy, Debug, PartialEq, Eq, Structural)]
pub enum RenderFormat {
    HTML,
    Canvas,
    SVG,
    WebGL,
}

/// What a render pass produced.
#[derive(Clone, Debug, PartialEq)]
pub struct RenderResult {
    pub content: String,
    pub metadata: RenderMetadata,
}

/// Statistics of one render pass; the render time is in milliseconds.
#[derive(Clone, Debug, PartialEq)]
pub struct RenderMetadata {
    pub render_time: u64,
    pub data_points: u32,
    pub widgets_rendered: u32,
    pub cache_hits: u32,
    pub errors: Vec<String>,
}

} // verus!
