//! Shared data types of the protocol: variable-length integer wrappers,
//! the 128-bit identifier, positions, enumerations with wire codes, and the
//! bit-flag carriers used by packet records.

use vstd::prelude::*;

verus! {

/// A namespaced resource name, such as `minecraft:stone`.
pub type Identifier = String;

/// A JSON-formatted chat text document.
pub type JsonTextComponent = String;

/// An opaque named-binary-tag blob.
pub type Nbt = Vec<u8>;

/// An opaque item slot blob.
pub type Slot = Vec<u8>;

/// An opaque entity metadata blob.
pub type EntityMetadata = Vec<u8>;

/// An opaque chunk data blob.
pub type ChunkData = Vec<u8>;

/// An opaque lighting data blob.
pub type LightData = Vec<u8>;

/// An opaque recipe display blob.
pub type RecipeDisplay = Vec<u8>;

/// An opaque slot display blob.
pub type SlotDisplay = Vec<u8>;

/// An opaque identifier set blob.
pub type IdSet = Vec<u8>;

/// An opaque chat type blob.
pub type ChatTypeData = Vec<u8>;

/// An opaque sound event blob.
pub type SoundEvent = Vec<u8>;

/// An opaque hashed item slot blob.
pub type HashedSlot = Slot;

/// A rotation step of 1/256th of a full turn.
pub type Angle = u8;

/// A 128-bit opaque identifier, carried on the wire as exactly sixteen raw
/// bytes with no length prefix. Its view is the byte sequence.
#[derive(Debug, Clone, PartialEq, Eq)]
pub struct Uuid {
    bytes: Vec<u8>,
}

impl View for Uuid {
    type V = Seq<u8>;

    closed spec fn view(&self) -> Seq<u8> {
        self.bytes@
    }
}

impl Uuid {
    /// Every identifier holds exactly sixteen bytes.
    pub open spec fn wf(&self) -> bool {
        self@.len() == 16
    }

    /// Wraps sixteen bytes as an identifier; any other length is refused.
    pub fn from_bytes(bytes: Vec<u8>) -> (r: Option<Uuid>)
        ensures
            r is Some <==> bytes@.len() == 16,
            r matches Some(u) ==> u@ == bytes@ && u.wf(),
    {
        if bytes.len() == 16 {
            Some(Uuid { bytes })
        } else {
            None
        }
    }

    /// The sixteen raw bytes of the identifier.
    pub fn as_bytes(&self) -> (r: &Vec<u8>)
        ensures
            r@ == self@,
    {
        &self.bytes
    }

    /// Consumes the identifier, yielding its sixteen raw bytes.
    pub fn into_bytes(self) -> (r: Vec<u8>)
        ensures
            r@ == self@,
    {
        self.bytes
    }
}

/// A signed 32-bit integer that travels on the wire in the 1-to-5-byte
/// variable-length encoding.
#[derive(Debug, PartialEq, Clone, Copy)]
pub struct VarInt(pub i32);

impl From<i32> for VarInt {
    fn from(value: i32) -> (r: Self) {
        VarInt(value)
    }
}

impl vstd::std_specs::convert::FromSpecImpl<i32> for VarInt {
    open spec fn obeys_from_spec() -> bool {
        true
    }

    open spec fn from_spec(value: i32) -> Self {
        VarInt(value)
    }
}

/// A signed 64-bit integer that would travel in the analogous 1-to-10-byte
/// variable-length encoding.
#[derive(Debug, PartialEq, Clone, Copy)]
pub struct VarLong(pub i64);

impl From<i64> for VarLong {
    fn from(value: i64) -> (r: Self) {
        VarLong(value)
    }
}

impl vstd::std_specs::convert::FromSpecImpl<i64> for VarLong {
    open spec fn obeys_from_spec() -> bool {
        true
    }

    open spec fn from_spec(value: i64) -> Self {
        VarLong(value)
    }
}


/// A block position in integer world coordinates.
#[derive(Debug, Clone, Copy, PartialEq, Eq, Hash)]
pub struct Position {
    pub x: i32,
    pub y: i32,
    pub z: i32,
}

/// The protocol state a handshake asks to enter next. On the wire, status
/// is 1, login is 2 and transfer is 3.
#[derive(Debug, Clone, PartialEq, Eq)]
pub enum NextState {
    Status,
    Login,
    Transfer,
}

impl NextState {
    /// The wire code of this next-state choice.
    pub open spec fn spec_code(&self) -> i32 {
        match self {
            NextState::Status => 1,
            NextState::Login => 2,
            NextState::Transfer => 3,
        }
    }

    /// Returns the wire code of this next-state choice.
    pub fn code(&self) -> (r: i32)
        ensures
            r == self.spec_code(),
    {
        match self {
            NextState::Status => 1,
            NextState::Login => 2,
            NextState::Transfer => 3,
        }
    }

    /// Maps a wire code to the next-state choice it names, refusing every
    /// other value.
    pub fn try_from(value: VarInt) -> (r: Result<NextState, ()>)
        ensures
            value.0 == 1 ==> r == Ok::<NextState, ()>(NextState::Status),
            value.0 == 2 ==> r == Ok::<NextState, ()>(NextState::Login),
            value.0 == 3 ==> r == Ok::<NextState, ()>(NextState::Transfer),
            !(1 <= value.0 <= 3) ==> r == Err::<NextState, ()>(()),
    {
        match value.0 {
            1 => Ok(NextState::Status),
            2 => Ok(NextState::Login),
            3 => Ok(NextState::Transfer),
            _ => Err(()),
        }
    }
}

/// A signed name/value pair attached to a player profile.
#[derive(Debug, Clone, PartialEq)]
pub struct Property {
    pub name: String,
    pub value: String,
    pub signature: Option<String>,
}

/// How much chat a client wants to see. Wire codes 0 to 2.
#[derive(Debug, Clone, PartialEq, Eq)]
pub enum ChatMode {
    Enabled,
    CommandsOnly,
    Hidden,
}

impl ChatMode {
    /// Maps a wire code to a chat mode, refusing every other value.
    pub fn try_from(value: VarInt) -> (r: Result<ChatMode, ()>)
        ensures
            value.0 == 0 ==> r == Ok::<ChatMode, ()>(ChatMode::Enabled),
            value.0 == 1 ==> r == Ok::<ChatMode, ()>(ChatMode::CommandsOnly),
            value.0 == 2 ==> r == Ok::<ChatMode, ()>(ChatMode::Hidden),
            !(0 <= value.0 <= 2) ==> r == Err::<ChatMode, ()>(()),
    {
        match value.0 {
            0 => Ok(ChatMode::Enabled),
            1 => Ok(ChatMode::CommandsOnly),
            2 => Ok(ChatMode::Hidden),
            _ => Err(()),
        }
    }
}

/// Which hand is the player's main hand. Wire codes 0 and 1.
#[derive(Debug, Clone, PartialEq, Eq)]
pub enum MainHand {
    Left,
    Right,
}

impl MainHand {
    /// Maps a wire code to a main hand, refusing every other value.
    pub fn try_from(value: VarInt) -> (r: Result<MainHand, ()>)
        ensures
            value.0 == 0 ==> r == Ok::<MainHand, ()>(MainHand::Left),
            value.0 == 1 ==> r == Ok::<MainHand, ()>(MainHand::Right),
            !(0 <= value.0 <= 1) ==> r == Err::<MainHand, ()>(()),
    {
        match value.0 {
            0 => Ok(MainHand::Left),
            1 => Ok(MainHand::Right),
            _ => Err(()),
        }
    }
}

/// How many particles a client wants to see. Wire codes 0 to 2.
#[derive(Debug, Clone, PartialEq, Eq)]
pub enum ParticleStatus {
    All,
    Decreased,
    Minimal,
}

impl ParticleStatus {
    /// Maps a wire code to a particle status, refusing every other value.
    pub fn try_from(value: VarInt) -> (r: Result<ParticleStatus, ()>)
        ensures
            value.0 == 0 ==> r == Ok::<ParticleStatus, ()>(ParticleStatus::All),
            value.0 == 1 ==> r == Ok::<ParticleStatus, ()>(ParticleStatus::Decreased),
            value.0 == 2 ==> r == Ok::<ParticleStatus, ()>(ParticleStatus::Minimal),
            !(0 <= value.0 <= 2) ==> r == Err::<ParticleStatus, ()>(()),
    {
        match value.0 {
            0 => Ok(ParticleStatus::All),
            1 => Ok(ParticleStatus::Decreased),
            2 => Ok(ParticleStatus::Minimal),
            _ => Err(()),
        }
    }
}

/// A client's verdict on an offered resource pack. Wire codes 0 to 7.
#[derive(Debug, Clone, PartialEq, Eq)]
pub enum ResourcePackResult {
    SuccessfullyDownloaded,
    Declined,
    FailedToDownload,
    Accepted,
    Downloaded,
    InvalidUrl,
    FailedToReload,
    Discarded,
}

impl ResourcePackResult {
    /// Maps a wire code to a resource pack result, refusing every other
    /// value.
    pub fn try_from(value: VarInt) -> (r: Result<ResourcePackResult, ()>)
        ensures
            value.0 == 0 ==> r == Ok::<ResourcePackResult, ()>(
                ResourcePackResult::SuccessfullyDownloaded,
            ),
            value.0 == 1 ==> r == Ok::<ResourcePackResult, ()>(ResourcePackResult::Declined),
            value.0 == 2 ==> r == Ok::<ResourcePackResult, ()>(
                ResourcePackResult::FailedToDownload,
            ),
            value.0 == 3 ==> r == Ok::<ResourcePackResult, ()>(ResourcePackResult::Accepted),
            value.0 == 4 ==> r == Ok::<ResourcePackResult, ()>(ResourcePackResult::Downloaded),
            value.0 == 5 ==> r == Ok::<ResourcePackResult, ()>(ResourcePackResult::InvalidUrl),
            value.0 == 6 ==> r == Ok::<ResourcePackResult, ()>(
                ResourcePackResult::FailedToReload,
            ),
            value.0 == 7 ==> r == Ok::<ResourcePackResult, ()>(ResourcePackResult::Discarded),
            !(0 <= value.0 <= 7) ==> r == Err::<ResourcePackResult, ()>(()),
    {
        match value.0 {
            0 => Ok(ResourcePackResult::SuccessfullyDownloaded),
            1 => Ok(ResourcePackResult::Declined),
            2 => Ok(ResourcePackResult::FailedToDownload),
            3 => Ok(ResourcePackResult::Accepted),
            4 => Ok(ResourcePackResult::Downloaded),
            5 => Ok(ResourcePackResult::InvalidUrl),
            6 => Ok(ResourcePackResult::FailedToReload),
            7 => Ok(ResourcePackResult::Discarded),
            _ => Err(()),
        }
    }
}

/// The label of a server link the client should show. Wire codes 0 to 9.
#[derive(Debug, Clone, PartialEq, Eq)]
pub enum BuiltInServerLinkLabel {
    BugReport,
    CommunityGuidelines,
    Support,
    Status,
    Feedback,
    Community,
    Website,
    Forums,
    News,
    Announcements,
}

impl BuiltInServerLinkLabel {
    /// Maps a wire code to a built-in link label, refusing every other
    /// value.
    pub fn try_from(value: VarInt) -> (r: Result<BuiltInServerLinkLabel, ()>)
        ensures
            value.0 == 0 ==> r == Ok::<BuiltInServerLinkLabel, ()>(
                BuiltInServerLinkLabel::BugReport,
            ),
            value.0 == 1 ==> r == Ok::<BuiltInServerLinkLabel, ()>(
                BuiltInServerLinkLabel::CommunityGuidelines,
            ),
            value.0 == 2 ==> r == Ok::<BuiltInServerLinkLabel, ()>(
                BuiltInServerLinkLabel::Support,
            ),
            value.0 == 3 ==> r == Ok::<BuiltInServerLinkLabel, ()>(
                BuiltInServerLinkLabel::Status,
            ),
            value.0 == 4 ==> r == Ok::<BuiltInServerLinkLabel, ()>(
                BuiltInServerLinkLabel::Feedback,
            ),
            value.0 == 5 ==> r == Ok::<BuiltInServerLinkLabel, ()>(
                BuiltInServerLinkLabel::Community,
            ),
            value.0 == 6 ==> r == Ok::<BuiltInServerLinkLabel, ()>(
                BuiltInServerLinkLabel::Website,
            ),
            value.0 == 7 ==> r == Ok::<BuiltInServerLinkLabel, ()>(
                BuiltInServerLinkLabel::Forums,
            ),
            value.0 == 8 ==> r == Ok::<BuiltInServerLinkLabel, ()>(BuiltInServerLinkLabel::News),
            value.0 == 9 ==> r == Ok::<BuiltInServerLinkLabel, ()>(
                BuiltInServerLinkLabel::Announcements,
            ),
            !(0 <= value.0 <= 9) ==> r == Err::<BuiltInServerLinkLabel, ()>(()),
    {
        match value.0 {
            0 => Ok(BuiltInServerLinkLabel::BugReport),
            1 => Ok(BuiltInServerLinkLabel::CommunityGuidelines),
            2 => Ok(BuiltInServerLinkLabel::Support),
            3 => Ok(BuiltInServerLinkLabel::Status),
            4 => Ok(BuiltInServerLinkLabel::Feedback),
            5 => Ok(BuiltInServerLinkLabel::Community),
            6 => Ok(BuiltInServerLinkLabel::Website),
            7 => Ok(BuiltInServerLinkLabel::Forums),
            8 => Ok(BuiltInServerLinkLabel::News),
            9 => Ok(BuiltInServerLinkLabel::Announcements),
            _ => Err(()),
        }
    }
}

/// A server link label: either a built-in kind or a custom text document.
#[derive(Debug, Clone, PartialEq)]
pub enum ServerLinkLabel {
    BuiltIn(BuiltInServerLinkLabel),
    Custom(JsonTextComponent),
}

/// A data pack known to one side of the connection.
#[derive(Debug, Clone, PartialEq)]
pub struct KnownPack {
    pub namespace: String,
    pub id: String,
    pub version: String,
}

/// One entry of a registry transfer.
#[derive(Debug, Clone, PartialEq)]
pub struct RegistryEntry {
    pub entry_id: Identifier,
    pub data: Option<Vec<u8>>,
}

/// A named tag over registry entries.
#[derive(Debug, Clone, PartialEq)]
pub struct Tag {
    pub tag_name: Identifier,
    pub entries: Vec<VarInt>,
}

/// All tags of one registry.
#[derive(Debug, Clone, PartialEq)]
pub struct RegistryTagData {
    pub registry_id: Identifier,
    pub tags: Vec<Tag>,
}

/// One custom line of a crash or bug report.
#[derive(Debug, Clone, PartialEq)]
pub struct CustomReportDetail {
    pub title: String,
    pub description: String,
}

/// A link the server asks the client to display.
#[derive(Debug, Clone, PartialEq)]
pub struct ServerLink {
    pub label: ServerLinkLabel,
    pub url: String,
}

/// A whole-body animation the server plays on an entity.
#[derive(Debug, Clone, Copy, PartialEq, Eq)]
pub enum EntityAnimation {
    SwingMainArm,
    LeaveBed,
    SwingOffhand,
    CriticalEffect,
    MagicCriticalEffect,
}

impl EntityAnimation {
    /// The wire code of this value.
    pub open spec fn spec_code(&self) -> i32 {
        match self {
            EntityAnimation::SwingMainArm => 0,
            EntityAnimation::LeaveBed => 2,
            EntityAnimation::SwingOffhand => 3,
            EntityAnimation::CriticalEffect => 4,
            EntityAnimation::MagicCriticalEffect => 5,
        }
    }

    /// Returns the wire code of this value.
    pub fn code(&self) -> (r: i32)
        ensures
            r == self.spec_code(),
    {
        match self {
            EntityAnimation::SwingMainArm => 0,
            EntityAnimation::LeaveBed => 2,
            EntityAnimation::SwingOffhand => 3,
            EntityAnimation::CriticalEffect => 4,
            EntityAnimation::MagicCriticalEffect => 5,
        }
    }
}

/// The category a statistic is counted under. Wire codes 0 to 8.
#[derive(Debug, Clone, Copy, PartialEq, Eq)]
pub enum StatisticCategory {
    Mined,
    Crafted,
    Used,
    Broken,
    PickedUp,
    Dropped,
    Killed,
    KilledBy,
    Custom,
}

impl StatisticCategory {
    /// The wire code of this value.
    pub open spec fn spec_code(&self) -> i32 {
        match self {
            StatisticCategory::Mined => 0,
            StatisticCategory::Crafted => 1,
            StatisticCategory::Used => 2,
            StatisticCategory::Broken => 3,
            StatisticCategory::PickedUp => 4,
            StatisticCategory::Dropped => 5,
            StatisticCategory::Killed => 6,
            StatisticCategory::KilledBy => 7,
            StatisticCategory::Custom => 8,
        }
    }

    /// Returns the wire code of this value.
    pub fn code(&self) -> (r: i32)
        ensures
            r == self.spec_code(),
    {
        match self {
            StatisticCategory::Mined => 0,
            StatisticCategory::Crafted => 1,
            StatisticCategory::Used => 2,
            StatisticCategory::Broken => 3,
            StatisticCategory::PickedUp => 4,
            StatisticCategory::Dropped => 5,
            StatisticCategory::Killed => 6,
            StatisticCategory::KilledBy => 7,
            StatisticCategory::Custom => 8,
        }
    }
}

/// What a boss bar update does. Wire codes 0 to 5.
#[derive(Debug, Clone, Copy, PartialEq, Eq)]
pub enum BossBarAction {
    Add,
    Remove,
    UpdateHealth,
    UpdateTitle,
    UpdateStyle,
    UpdateFlags,
}

/// The color of a boss bar. Wire codes 0 to 6.
#[derive(Debug, Clone, Copy, PartialEq, Eq)]
pub enum BossBarColor {
    Pink,
    Blue,
    Red,
    Green,
    Yellow,
    Purple,
    White,
}

impl BossBarColor {
    /// The wire code of this value.
    pub open spec fn spec_code(&self) -> i32 {
        match self {
            BossBarColor::Pink => 0,
            BossBarColor::Blue => 1,
            BossBarColor::Red => 2,
            BossBarColor::Green => 3,
            BossBarColor::Yellow => 4,
            BossBarColor::Purple => 5,
            BossBarColor::White => 6,
        }
    }

    /// Returns the wire code of this value.
    pub fn code(&self) -> (r: i32)
        ensures
            r == self.spec_code(),
    {
        match self {
            BossBarColor::Pink => 0,
            BossBarColor::Blue => 1,
            BossBarColor::Red => 2,
            BossBarColor::Green => 3,
            BossBarColor::Yellow => 4,
            BossBarColor::Purple => 5,
            BossBarColor::White => 6,
        }
    }
}

/// How a boss bar is divided into notches. Wire codes 0 to 4.
#[derive(Debug, Clone, Copy, PartialEq, Eq)]
pub enum BossBarDivision {
    NoDivision,
    SixNotches,
    TenNotches,
    TwelveNotches,
    TwentyNotches,
}

impl BossBarDivision {
    /// The wire code of this value.
    pub open spec fn spec_code(&self) -> i32 {
        match self {
            BossBarDivision::NoDivision => 0,
            BossBarDivision::SixNotches => 1,
            BossBarDivision::TenNotches => 2,
            BossBarDivision::TwelveNotches => 3,
            BossBarDivision::TwentyNotches => 4,
        }
    }

    /// Returns the wire code of this value.
    pub fn code(&self) -> (r: i32)
        ensures
            r == self.spec_code(),
    {
        match self {
            BossBarDivision::NoDivision => 0,
            BossBarDivision::SixNotches => 1,
            BossBarDivision::TenNotches => 2,
            BossBarDivision::TwelveNotches => 3,
            BossBarDivision::TwentyNotches => 4,
        }
    }
}

/// The world difficulty. Wire codes 0 to 3.
#[derive(Debug, Clone, Copy, PartialEq, Eq)]
pub enum Difficulty {
    Peaceful,
    Easy,
    Normal,
    Hard,
}

impl Difficulty {
    /// The wire code of this value.
    pub open spec fn spec_code(&self) -> i32 {
        match self {
            Difficulty::Peaceful => 0,
            Difficulty::Easy => 1,
            Difficulty::Normal => 2,
            Difficulty::Hard => 3,
        }
    }

    /// Returns the wire code of this value.
    pub fn code(&self) -> (r: i32)
        ensures
            r == self.spec_code(),
    {
        match self {
            Difficulty::Peaceful => 0,
            Difficulty::Easy => 1,
            Difficulty::Normal => 2,
            Difficulty::Hard => 3,
        }
    }
}

/// What a chat suggestion update does. Wire codes 0 to 2.
#[derive(Debug, Clone, Copy, PartialEq, Eq)]
pub enum ChatSuggestionAction {
    Add,
    Remove,
    Replace,
}

impl ChatSuggestionAction {
    /// The wire code of this value.
    pub open spec fn spec_code(&self) -> i32 {
        match self {
            ChatSuggestionAction::Add => 0,
            ChatSuggestionAction::Remove => 1,
            ChatSuggestionAction::Replace => 2,
        }
    }

    /// Returns the wire code of this value.
    pub fn code(&self) -> (r: i32)
        ensures
            r == self.spec_code(),
    {
        match self {
            ChatSuggestionAction::Add => 0,
            ChatSuggestionAction::Remove => 1,
            ChatSuggestionAction::Replace => 2,
        }
    }
}

/// How strongly a chat message was filtered. Wire codes 0 to 2.
#[derive(Debug, Clone, Copy, PartialEq, Eq)]
pub enum FilterType {
    PassThrough,
    FullyFiltered,
    PartiallyFiltered,
}

impl FilterType {
    /// The wire code of this value.
    pub open spec fn spec_code(&self) -> i32 {
        match self {
            FilterType::PassThrough => 0,
            FilterType::FullyFiltered => 1,
            FilterType::PartiallyFiltered => 2,
        }
    }

    /// Returns the wire code of this value.
    pub fn code(&self) -> (r: i32)
        ensures
            r == self.spec_code(),
    {
        match self {
            FilterType::PassThrough => 0,
            FilterType::FullyFiltered => 1,
            FilterType::PartiallyFiltered => 2,
        }
    }
}

/// A world event the server announces. Wire codes 0 to 13.
#[derive(Debug, Clone, Copy, PartialEq, Eq)]
pub enum GameEventType {
    NoRespawnBlock,
    BeginRaining,
    EndRaining,
    ChangeGameMode,
    WinGame,
    DemoEvent,
    ArrowHitPlayer,
    RainLevelChange,
    ThunderLevelChange,
    PlayPufferfishSting,
    PlayElderGuardianMobAppearance,
    EnableRespawnScreen,
    LimitedCrafting,
    StartWaitingForLevelChunks,
}

impl GameEventType {
    /// The wire code of this value.
    pub open spec fn spec_code(&self) -> i32 {
        match self {
            GameEventType::NoRespawnBlock => 0,
            GameEventType::BeginRaining => 1,
            GameEventType::EndRaining => 2,
            GameEventType::ChangeGameMode => 3,
            GameEventType::WinGame => 4,
            GameEventType::DemoEvent => 5,
            GameEventType::ArrowHitPlayer => 6,
            GameEventType::RainLevelChange => 7,
            GameEventType::ThunderLevelChange => 8,
            GameEventType::PlayPufferfishSting => 9,
            GameEventType::PlayElderGuardianMobAppearance => 10,
            GameEventType::EnableRespawnScreen => 11,
            GameEventType::LimitedCrafting => 12,
            GameEventType::StartWaitingForLevelChunks => 13,
        }
    }

    /// Returns the wire code of this value.
    pub fn code(&self) -> (r: i32)
        ensures
            r == self.spec_code(),
    {
        match self {
            GameEventType::NoRespawnBlock => 0,
            GameEventType::BeginRaining => 1,
            GameEventType::EndRaining => 2,
            GameEventType::ChangeGameMode => 3,
            GameEventType::WinGame => 4,
            GameEventType::DemoEvent => 5,
            GameEventType::ArrowHitPlayer => 6,
            GameEventType::RainLevelChange => 7,
            GameEventType::ThunderLevelChange => 8,
            GameEventType::PlayPufferfishSting => 9,
            GameEventType::PlayElderGuardianMobAppearance => 10,
            GameEventType::EnableRespawnScreen => 11,
            GameEventType::LimitedCrafting => 12,
            GameEventType::StartWaitingForLevelChunks => 13,
        }
    }
}

/// One of the player's two hands. Wire codes 0 and 1.
#[derive(Debug, Clone, Copy, PartialEq, Eq)]
pub enum Hand {
    MainHand,
    OffHand,
}

impl Hand {
    /// The wire code of this value.
    pub open spec fn spec_code(&self) -> i32 {
        match self {
            Hand::MainHand => 0,
            Hand::OffHand => 1,
        }
    }

    /// Returns the wire code of this value.
    pub fn code(&self) -> (r: i32)
        ensures
            r == self.spec_code(),
    {
        match self {
            Hand::MainHand => 0,
            Hand::OffHand => 1,
        }
    }
}

/// The glyph a map icon is drawn with. Wire codes 0 to 34.
#[derive(Debug, Clone, Copy, PartialEq, Eq)]
pub enum MapIconType {
    Player,
    Frame,
    RedMarker,
    BlueMarker,
    TargetX,
    TargetPoint,
    PlayerOffMap,
    PlayerOffLimits,
    Mansion,
    Monument,
    BannerWhite,
    BannerOrange,
    BannerMagenta,
    BannerLightBlue,
    BannerYellow,
    BannerLime,
    BannerPink,
    BannerGray,
    BannerLightGray,
    BannerCyan,
    BannerPurple,
    BannerBlue,
    BannerBrown,
    BannerGreen,
    BannerRed,
    BannerBlack,
    TreasureMarker,
    DesertVillage,
    PlainsVillage,
    SavannaVillage,
    SnowyVillage,
    TaigaVillage,
    JungleTemple,
    SwampHut,
    TrialChambers,
}

impl MapIconType {
    /// The wire code of this value.
    pub open spec fn spec_code(&self) -> i32 {
        match self {
            MapIconType::Player => 0,
            MapIconType::Frame => 1,
            MapIconType::RedMarker => 2,
            MapIconType::BlueMarker => 3,
            MapIconType::TargetX => 4,
            MapIconType::TargetPoint => 5,
            MapIconType::PlayerOffMap => 6,
            MapIconType::PlayerOffLimits => 7,
            MapIconType::Mansion => 8,
            MapIconType::Monument => 9,
            MapIconType::BannerWhite => 10,
            MapIconType::BannerOrange => 11,
            MapIconType::BannerMagenta => 12,
            MapIconType::BannerLightBlue => 13,
            MapIconType::BannerYellow => 14,
            MapIconType::BannerLime => 15,
            MapIconType::BannerPink => 16,
            MapIconType::BannerGray => 17,
            MapIconType::BannerLightGray => 18,
            MapIconType::BannerCyan => 19,
            MapIconType::BannerPurple => 20,
            MapIconType::BannerBlue => 21,
            MapIconType::BannerBrown => 22,
            MapIconType::BannerGreen => 23,
            MapIconType::BannerRed => 24,
            MapIconType::BannerBlack => 25,
            MapIconType::TreasureMarker => 26,
            MapIconType::DesertVillage => 27,
            MapIconType::PlainsVillage => 28,
            MapIconType::SavannaVillage => 29,
            MapIconType::SnowyVillage => 30,
            MapIconType::TaigaVillage => 31,
            MapIconType::JungleTemple => 32,
            MapIconType::SwampHut => 33,
            MapIconType::TrialChambers => 34,
        }
    }

    /// Returns the wire code of this value.
    pub fn code(&self) -> (r: i32)
        ensures
            r == self.spec_code(),
    {
        match self {
            MapIconType::Player => 0,
            MapIconType::Frame => 1,
            MapIconType::RedMarker => 2,
            MapIconType::BlueMarker => 3,
            MapIconType::TargetX => 4,
            MapIconType::TargetPoint => 5,
            MapIconType::PlayerOffMap => 6,
            MapIconType::PlayerOffLimits => 7,
            MapIconType::Mansion => 8,
            MapIconType::Monument => 9,
            MapIconType::BannerWhite => 10,
            MapIconType::BannerOrange => 11,
            MapIconType::BannerMagenta => 12,
            MapIconType::BannerLightBlue => 13,
            MapIconType::BannerYellow => 14,
            MapIconType::BannerLime => 15,
            MapIconType::BannerPink => 16,
            MapIconType::BannerGray => 17,
            MapIconType::BannerLightGray => 18,
            MapIconType::BannerCyan => 19,
            MapIconType::BannerPurple => 20,
            MapIconType::BannerBlue => 21,
            MapIconType::BannerBrown => 22,
            MapIconType::BannerGreen => 23,
            MapIconType::BannerRed => 24,
            MapIconType::BannerBlack => 25,
            MapIconType::TreasureMarker => 26,
            MapIconType::DesertVillage => 27,
            MapIconType::PlainsVillage => 28,
            MapIconType::SavannaVillage => 29,
            MapIconType::SnowyVillage => 30,
            MapIconType::TaigaVillage => 31,
            MapIconType::JungleTemple => 32,
            MapIconType::SwampHut => 33,
            MapIconType::TrialChambers => 34,
        }
    }
}

/// A villager's trading level. Wire codes 1 to 5.
#[derive(Debug, Clone, Copy, PartialEq, Eq)]
pub enum VillagerLevel {
    Novice,
    Apprentice,
    Journeyman,
    Expert,
    Master,
}

impl VillagerLevel {
    /// The wire code of this value.
    pub open spec fn spec_code(&self) -> i32 {
        match self {
            VillagerLevel::Novice => 1,
            VillagerLevel::Apprentice => 2,
            VillagerLevel::Journeyman => 3,
            VillagerLevel::Expert => 4,
            VillagerLevel::Master => 5,
        }
    }

    /// Returns the wire code of this value.
    pub fn code(&self) -> (r: i32)
        ensures
            r == self.spec_code(),
    {
        match self {
            VillagerLevel::Novice => 1,
            VillagerLevel::Apprentice => 2,
            VillagerLevel::Journeyman => 3,
            VillagerLevel::Expert => 4,
            VillagerLevel::Master => 5,
        }
    }
}

/// Which part of an entity a look-at targets. Wire codes 0 and 1.
#[derive(Debug, Clone, Copy, PartialEq, Eq)]
pub enum LookAtAnchor {
    Feet,
    Eyes,
}

impl LookAtAnchor {
    /// The wire code of this value.
    pub open spec fn spec_code(&self) -> i32 {
        match self {
            LookAtAnchor::Feet => 0,
            LookAtAnchor::Eyes => 1,
        }
    }

    /// Returns the wire code of this value.
    pub fn code(&self) -> (r: i32)
        ensures
            r == self.spec_code(),
    {
        match self {
            LookAtAnchor::Feet => 0,
            LookAtAnchor::Eyes => 1,
        }
    }
}

/// The player's game mode. Wire codes 0 to 3.
#[derive(Debug, Clone, Copy, PartialEq, Eq)]
pub enum GameMode {
    Survival,
    Creative,
    Adventure,
    Spectator,
}

impl GameMode {
    /// The wire code of this value.
    pub open spec fn spec_code(&self) -> i32 {
        match self {
            GameMode::Survival => 0,
            GameMode::Creative => 1,
            GameMode::Adventure => 2,
            GameMode::Spectator => 3,
        }
    }

    /// Returns the wire code of this value.
    pub fn code(&self) -> (r: i32)
        ensures
            r == self.spec_code(),
    {
        match self {
            GameMode::Survival => 0,
            GameMode::Creative => 1,
            GameMode::Adventure => 2,
            GameMode::Spectator => 3,
        }
    }
}

/// The game mode before a respawn, with -1 standing for none.
#[derive(Debug, Clone, Copy, PartialEq, Eq)]
pub enum PreviousGameMode {
    Undefined,
    Survival,
    Creative,
    Adventure,
    Spectator,
}

impl PreviousGameMode {
    /// The wire code of this value.
    pub open spec fn spec_code(&self) -> i32 {
        match self {
            PreviousGameMode::Undefined => -1i32,
            PreviousGameMode::Survival => 0,
            PreviousGameMode::Creative => 1,
            PreviousGameMode::Adventure => 2,
            PreviousGameMode::Spectator => 3,
        }
    }

    /// Returns the wire code of this value.
    pub fn code(&self) -> (r: i32)
        ensures
            r == self.spec_code(),
    {
        match self {
            PreviousGameMode::Undefined => -1,
            PreviousGameMode::Survival => 0,
            PreviousGameMode::Creative => 1,
            PreviousGameMode::Adventure => 2,
            PreviousGameMode::Spectator => 3,
        }
    }
}

/// The slot an equipment change addresses. Wire codes 0 to 6.
#[derive(Debug, Clone, Copy, PartialEq, Eq)]
pub enum EquipmentSlot {
    MainHand,
    OffHand,
    Boots,
    Leggings,
    Chestplate,
    Helmet,
    Body,
}

impl EquipmentSlot {
    /// The wire code of this value.
    pub open spec fn spec_code(&self) -> i32 {
        match self {
            EquipmentSlot::MainHand => 0,
            EquipmentSlot::OffHand => 1,
            EquipmentSlot::Boots => 2,
            EquipmentSlot::Leggings => 3,
            EquipmentSlot::Chestplate => 4,
            EquipmentSlot::Helmet => 5,
            EquipmentSlot::Body => 6,
        }
    }

    /// Returns the wire code of this value.
    pub fn code(&self) -> (r: i32)
        ensures
            r == self.spec_code(),
    {
        match self {
            EquipmentSlot::MainHand => 0,
            EquipmentSlot::OffHand => 1,
            EquipmentSlot::Boots => 2,
            EquipmentSlot::Leggings => 3,
            EquipmentSlot::Chestplate => 4,
            EquipmentSlot::Helmet => 5,
            EquipmentSlot::Body => 6,
        }
    }
}

/// What an objective update does. Wire codes 0 to 2.
#[derive(Debug, Clone, Copy, PartialEq, Eq)]
pub enum ObjectiveMode {
    Create,
    Remove,
    Update,
}

impl ObjectiveMode {
    /// The wire code of this value.
    pub open spec fn spec_code(&self) -> i32 {
        match self {
            ObjectiveMode::Create => 0,
            ObjectiveMode::Remove => 1,
            ObjectiveMode::Update => 2,
        }
    }

    /// Returns the wire code of this value.
    pub fn code(&self) -> (r: i32)
        ensures
            r == self.spec_code(),
    {
        match self {
            ObjectiveMode::Create => 0,
            ObjectiveMode::Remove => 1,
            ObjectiveMode::Update => 2,
        }
    }
}

/// How an objective's score is rendered. Wire codes 0 and 1.
#[derive(Debug, Clone, Copy, PartialEq, Eq)]
pub enum ObjectiveType {
    Integer,
    Hearts,
}

impl ObjectiveType {
    /// The wire code of this value.
    pub open spec fn spec_code(&self) -> i32 {
        match self {
            ObjectiveType::Integer => 0,
            ObjectiveType::Hearts => 1,
        }
    }

    /// Returns the wire code of this value.
    pub fn code(&self) -> (r: i32)
        ensures
            r == self.spec_code(),
    {
        match self {
            ObjectiveType::Integer => 0,
            ObjectiveType::Hearts => 1,
        }
    }
}

/// How an objective score is formatted next to its value.
#[derive(Debug, Clone, PartialEq)]
pub enum NumberFormat {
    Blank,
    Styled(Nbt),
    Fixed(JsonTextComponent),
}

/// What a team update does. Wire codes 0 to 4.
#[derive(Debug, Clone, Copy, PartialEq, Eq)]
pub enum TeamMethod {
    Create,
    Remove,
    UpdateInfo,
    AddEntities,
    RemoveEntities,
}

/// Who sees a team member's name tag.
#[derive(Debug, Clone, PartialEq, Eq)]
pub enum NameTagVisibility {
    Always,
    HideForOtherTeams,
    HideForOwnTeam,
    Never,
}

/// Whom a team member collides with.
#[derive(Debug, Clone, PartialEq, Eq)]
pub enum CollisionRule {
    Always,
    PushOtherTeams,
    PushOwnTeam,
    Never,
}

/// The color or style of a team. Wire codes 0 to 21.
#[derive(Debug, Clone, Copy, PartialEq, Eq)]
pub enum TeamColor {
    Black,
    DarkBlue,
    DarkGreen,
    DarkAqua,
    DarkRed,
    DarkPurple,
    Gold,
    Gray,
    DarkGray,
    Blue,
    Green,
    Aqua,
    Red,
    LightPurple,
    Yellow,
    White,
    Obfuscated,
    Bold,
    Strikethrough,
    Underlined,
    Italic,
    Reset,
}

impl TeamColor {
    /// The wire code of this value.
    pub open spec fn spec_code(&self) -> i32 {
        match self {
            TeamColor::Black => 0,
            TeamColor::DarkBlue => 1,
            TeamColor::DarkGreen => 2,
            TeamColor::DarkAqua => 3,
            TeamColor::DarkRed => 4,
            TeamColor::DarkPurple => 5,
            TeamColor::Gold => 6,
            TeamColor::Gray => 7,
            TeamColor::DarkGray => 8,
            TeamColor::Blue => 9,
            TeamColor::Green => 10,
            TeamColor::Aqua => 11,
            TeamColor::Red => 12,
            TeamColor::LightPurple => 13,
            TeamColor::Yellow => 14,
            TeamColor::White => 15,
            TeamColor::Obfuscated => 16,
            TeamColor::Bold => 17,
            TeamColor::Strikethrough => 18,
            TeamColor::Underlined => 19,
            TeamColor::Italic => 20,
            TeamColor::Reset => 21,
        }
    }

    /// Returns the wire code of this value.
    pub fn code(&self) -> (r: i32)
        ensures
            r == self.spec_code(),
    {
        match self {
            TeamColor::Black => 0,
            TeamColor::DarkBlue => 1,
            TeamColor::DarkGreen => 2,
            TeamColor::DarkAqua => 3,
            TeamColor::DarkRed => 4,
            TeamColor::DarkPurple => 5,
            TeamColor::Gold => 6,
            TeamColor::Gray => 7,
            TeamColor::DarkGray => 8,
            TeamColor::Blue => 9,
            TeamColor::Green => 10,
            TeamColor::Aqua => 11,
            TeamColor::Red => 12,
            TeamColor::LightPurple => 13,
            TeamColor::Yellow => 14,
            TeamColor::White => 15,
            TeamColor::Obfuscated => 16,
            TeamColor::Bold => 17,
            TeamColor::Strikethrough => 18,
            TeamColor::Underlined => 19,
            TeamColor::Italic => 20,
            TeamColor::Reset => 21,
        }
    }
}

/// The mixer channel a sound plays on. Wire codes 0 to 9.
#[derive(Debug, Clone, Copy, PartialEq, Eq)]
pub enum SoundCategory {
    Master,
    Music,
    Record,
    Weather,
    Block,
    Hostile,
    Neutral,
    Player,
    Ambient,
    Voice,
}

impl SoundCategory {
    /// The wire code of this value.
    pub open spec fn spec_code(&self) -> i32 {
        match self {
            SoundCategory::Master => 0,
            SoundCategory::Music => 1,
            SoundCategory::Record => 2,
            SoundCategory::Weather => 3,
            SoundCategory::Block => 4,
            SoundCategory::Hostile => 5,
            SoundCategory::Neutral => 6,
            SoundCategory::Player => 7,
            SoundCategory::Ambient => 8,
            SoundCategory::Voice => 9,
        }
    }

    /// Returns the wire code of this value.
    pub fn code(&self) -> (r: i32)
        ensures
            r == self.spec_code(),
    {
        match self {
            SoundCategory::Master => 0,
            SoundCategory::Music => 1,
            SoundCategory::Record => 2,
            SoundCategory::Weather => 3,
            SoundCategory::Block => 4,
            SoundCategory::Hostile => 5,
            SoundCategory::Neutral => 6,
            SoundCategory::Player => 7,
            SoundCategory::Ambient => 8,
            SoundCategory::Voice => 9,
        }
    }
}

impl SoundCategory {
    /// Maps a wire code to a sound category, refusing every other value.
    pub fn try_from(value: VarInt) -> (r: Result<SoundCategory, ()>)
        ensures
            0 <= value.0 <= 9 ==> (r matches Ok(c) && c.spec_code() == value.0),
            !(0 <= value.0 <= 9) ==> r == Err::<SoundCategory, ()>(()),
    {
        match value.0 {
            0 => Ok(SoundCategory::Master),
            1 => Ok(SoundCategory::Music),
            2 => Ok(SoundCategory::Record),
            3 => Ok(SoundCategory::Weather),
            4 => Ok(SoundCategory::Block),
            5 => Ok(SoundCategory::Hostile),
            6 => Ok(SoundCategory::Neutral),
            7 => Ok(SoundCategory::Player),
            8 => Ok(SoundCategory::Ambient),
            9 => Ok(SoundCategory::Voice),
            _ => Err(()),
        }
    }
}

impl From<SoundCategory> for VarInt {
    fn from(value: SoundCategory) -> (r: Self) {
        VarInt(value.code())
    }
}

impl vstd::std_specs::convert::FromSpecImpl<SoundCategory> for VarInt {
    open spec fn obeys_from_spec() -> bool {
        true
    }

    open spec fn from_spec(value: SoundCategory) -> Self {
        VarInt(value.spec_code())
    }
}

/// The frame drawn around an advancement. Wire codes 0 to 2.
#[derive(Debug, Clone, Copy, PartialEq, Eq)]
pub enum AdvancementFrameType {
    Task,
    Challenge,
    Goal,
}

/// How an attribute modifier combines with the base value.
#[derive(Debug, Clone, Copy, PartialEq, Eq)]
pub enum AttributeOperation {
    AddAmount,
    AddPercent,
    MultiplyPercent,
}

/// One statistic counter of a player.
#[derive(Debug, Clone, PartialEq)]
pub struct Statistic {
    pub category_id: VarInt,
    pub statistic_id: VarInt,
    pub value: VarInt,
}

/// An opaque node of the command tree.
#[derive(Debug, Clone, PartialEq)]
pub struct CommandNode {
    pub data: Vec<u8>,
}

/// One completion offered for a command being typed.
#[derive(Debug, Clone, PartialEq)]
pub struct SuggestionMatch {
    pub match_text: String,
    pub tooltip: Option<JsonTextComponent>,
}

/// One icon drawn on a map item.
#[derive(Debug, Clone, PartialEq)]
pub struct MapIcon {
    pub icon_type: VarInt,
    pub x: i8,
    pub z: i8,
    pub direction: u8,
    pub display_name: Option<JsonTextComponent>,
}

/// A rectangular patch of map colors to update.
#[derive(Debug, Clone, PartialEq)]
pub struct MapColorPatch {
    pub columns: u8,
    pub rows: u8,
    pub x: u8,
    pub z: u8,
    pub data: Vec<u8>,
}

/// One item side of a villager trade.
#[derive(Debug, Clone, PartialEq)]
pub struct TradeItem {
    pub item_id: VarInt,
    pub item_count: VarInt,
    pub components: Vec<u8>,
}

/// A signed name/value pair of a player info update.
#[derive(Debug, Clone, PartialEq)]
pub struct PlayerInfoProperty {
    pub name: String,
    pub value: String,
    pub signature: Option<String>,
}

/// The chat signing session of a player.
#[derive(Debug, Clone, PartialEq)]
pub struct PlayerInfoChatSession {
    pub session_id: Uuid,
    pub public_key_expiry_time: i64,
    pub encoded_public_key: Vec<u8>,
    pub public_key_signature: Vec<u8>,
}

/// One action of a player info update.
#[derive(Debug, Clone, PartialEq)]
pub enum PlayerInfoActionData {
    AddPlayer { name: String, properties: Vec<PlayerInfoProperty> },
    InitializeChat { chat_session: Option<PlayerInfoChatSession> },
    UpdateGameMode { game_mode: VarInt },
    UpdateListed { listed: bool },
    UpdateLatency { ping: VarInt },
    UpdateDisplayName { display_name: Option<JsonTextComponent> },
    UpdateListPriority { priority: VarInt },
    UpdateHat { visible: bool },
}

/// All actions of a player info update that address one player.
#[derive(Debug, Clone, PartialEq)]
pub struct PlayerInfoEntry {
    pub uuid: Uuid,
    pub actions: Vec<PlayerInfoActionData>,
}

/// One criterion of an advancement and when it was achieved.
#[derive(Debug, Clone, PartialEq)]
pub struct AdvancementProgressCriterion {
    pub criterion_identifier: Identifier,
    pub date_of_achieving: Option<i64>,
}

/// A player's progress through one advancement.
#[derive(Debug, Clone, PartialEq)]
pub struct AdvancementProgress {
    pub criteria: Vec<AdvancementProgressCriterion>,
}

/// One slot of an equipment change.
#[derive(Debug, Clone, PartialEq)]
pub struct EquipmentEntry {
    pub slot: u8,
    pub item: Slot,
}

/// The entities belonging to a team.
#[derive(Debug, Clone, PartialEq)]
pub struct TeamEntities {
    pub entities: Vec<String>,
}

/// One packed block update within a chunk section.
#[derive(Debug, Clone, PartialEq)]
pub struct ChunkSectionBlockUpdate {
    pub block_state_id_and_pos: i64,
}

/// One recipe added to the recipe book.
#[derive(Debug, Clone, PartialEq)]
pub struct RecipeBookEntry {
    pub recipe_id: VarInt,
    pub display: RecipeDisplay,
    pub group_id: VarInt,
    pub category_id: VarInt,
    pub ingredients: Option<Vec<IdSet>>,
    pub flags: u8,
}

/// Which skin layers a player displays.
#[derive(Debug, Clone, Copy, PartialEq, Eq, Hash)]
pub struct DisplayedSkinParts {
    bits: u8,
}

impl DisplayedSkinParts {
    /// The flag set holding only its cape bit.
    pub fn cape() -> (r: DisplayedSkinParts)
        ensures
            r.spec_bits() == 0x1,
    {
        DisplayedSkinParts { bits: 0x1 }
    }

    /// The flag set holding only its jacket bit.
    pub fn jacket() -> (r: DisplayedSkinParts)
        ensures
            r.spec_bits() == 0x2,
    {
        DisplayedSkinParts { bits: 0x2 }
    }

    /// The flag set holding only its left sleeve bit.
    pub fn left_sleeve() -> (r: DisplayedSkinParts)
        ensures
            r.spec_bits() == 0x4,
    {
        DisplayedSkinParts { bits: 0x4 }
    }

    /// The flag set holding only its right sleeve bit.
    pub fn right_sleeve() -> (r: DisplayedSkinParts)
        ensures
            r.spec_bits() == 0x8,
    {
        DisplayedSkinParts { bits: 0x8 }
    }

    /// The flag set holding only its left pants bit.
    pub fn left_pants() -> (r: DisplayedSkinParts)
        ensures
            r.spec_bits() == 0x10,
    {
        DisplayedSkinParts { bits: 0x10 }
    }

    /// The flag set holding only its right pants bit.
    pub fn right_pants() -> (r: DisplayedSkinParts)
        ensures
            r.spec_bits() == 0x20,
    {
        DisplayedSkinParts { bits: 0x20 }
    }

    /// The flag set holding only its hat bit.
    pub fn hat() -> (r: DisplayedSkinParts)
        ensures
            r.spec_bits() == 0x40,
    {
        DisplayedSkinParts { bits: 0x40 }
    }

    /// The flag set holding every defined bit.
    pub fn all() -> (r: DisplayedSkinParts)
        ensures
            r.spec_bits() == 0x7f,
    {
        DisplayedSkinParts { bits: 0x7f }
    }

    /// The raw bit pattern of this flag set.
    pub closed spec fn spec_bits(&self) -> u8 {
        self.bits
    }

    /// Returns the raw bit pattern of this flag set.
    pub fn bits(&self) -> (r: u8)
        ensures
            r == self.spec_bits(),
    {
        self.bits
    }

    /// Builds a flag set from a raw bit pattern.
    pub fn from_bits(bits: u8) -> (r: DisplayedSkinParts)
        ensures
            r.spec_bits() == bits,
    {
        DisplayedSkinParts { bits }
    }
}

/// Display options of a boss bar.
#[derive(Debug, Clone, Copy, PartialEq, Eq, Hash)]
pub struct BossBarFlags {
    bits: u8,
}

impl BossBarFlags {
    /// The flag set holding only its darken sky bit.
    pub fn darken_sky() -> (r: BossBarFlags)
        ensures
            r.spec_bits() == 0x1,
    {
        BossBarFlags { bits: 0x1 }
    }

    /// The flag set holding only its dragon bar bit.
    pub fn dragon_bar() -> (r: BossBarFlags)
        ensures
            r.spec_bits() == 0x2,
    {
        BossBarFlags { bits: 0x2 }
    }

    /// The flag set holding only its create fog bit.
    pub fn create_fog() -> (r: BossBarFlags)
        ensures
            r.spec_bits() == 0x4,
    {
        BossBarFlags { bits: 0x4 }
    }

    /// The flag set holding every defined bit.
    pub fn all() -> (r: BossBarFlags)
        ensures
            r.spec_bits() == 0x7,
    {
        BossBarFlags { bits: 0x7 }
    }

    /// The raw bit pattern of this flag set.
    pub closed spec fn spec_bits(&self) -> u8 {
        self.bits
    }

    /// Returns the raw bit pattern of this flag set.
    pub fn bits(&self) -> (r: u8)
        ensures
            r == self.spec_bits(),
    {
        self.bits
    }

    /// Builds a flag set from a raw bit pattern.
    pub fn from_bits(bits: u8) -> (r: BossBarFlags)
        ensures
            r.spec_bits() == bits,
    {
        BossBarFlags { bits }
    }
}

/// The movement abilities granted to a player.
#[derive(Debug, Clone, Copy, PartialEq, Eq, Hash)]
pub struct PlayerAbilityFlags {
    bits: u8,
}

impl PlayerAbilityFlags {
    /// The flag set holding only its invulnerable bit.
    pub fn invulnerable() -> (r: PlayerAbilityFlags)
        ensures
            r.spec_bits() == 0x1,
    {
        PlayerAbilityFlags { bits: 0x1 }
    }

    /// The flag set holding only its flying bit.
    pub fn flying() -> (r: PlayerAbilityFlags)
        ensures
            r.spec_bits() == 0x2,
    {
        PlayerAbilityFlags { bits: 0x2 }
    }

    /// The flag set holding only its allow flying bit.
    pub fn allow_flying() -> (r: PlayerAbilityFlags)
        ensures
            r.spec_bits() == 0x4,
    {
        PlayerAbilityFlags { bits: 0x4 }
    }

    /// The flag set holding only its creative mode bit.
    pub fn creative_mode() -> (r: PlayerAbilityFlags)
        ensures
            r.spec_bits() == 0x8,
    {
        PlayerAbilityFlags { bits: 0x8 }
    }

    /// The flag set holding every defined bit.
    pub fn all() -> (r: PlayerAbilityFlags)
        ensures
            r.spec_bits() == 0xf,
    {
        PlayerAbilityFlags { bits: 0xf }
    }

    /// The raw bit pattern of this flag set.
    pub closed spec fn spec_bits(&self) -> u8 {
        self.bits
    }

    /// Returns the raw bit pattern of this flag set.
    pub fn bits(&self) -> (r: u8)
        ensures
            r == self.spec_bits(),
    {
        self.bits
    }

    /// Builds a flag set from a raw bit pattern.
    pub fn from_bits(bits: u8) -> (r: PlayerAbilityFlags)
        ensures
            r.spec_bits() == bits,
    {
        PlayerAbilityFlags { bits }
    }
}

/// Which teleport coordinates are relative.
#[derive(Debug, Clone, Copy, PartialEq, Eq, Hash)]
pub struct TeleportFlags {
    bits: u8,
}

impl TeleportFlags {
    /// The flag set holding only its relative x bit.
    pub fn relative_x() -> (r: TeleportFlags)
        ensures
            r.spec_bits() == 0x1,
    {
        TeleportFlags { bits: 0x1 }
    }

    /// The flag set holding only its relative y bit.
    pub fn relative_y() -> (r: TeleportFlags)
        ensures
            r.spec_bits() == 0x2,
    {
        TeleportFlags { bits: 0x2 }
    }

    /// The flag set holding only its relative z bit.
    pub fn relative_z() -> (r: TeleportFlags)
        ensures
            r.spec_bits() == 0x4,
    {
        TeleportFlags { bits: 0x4 }
    }

    /// The flag set holding only its relative yaw bit.
    pub fn relative_yaw() -> (r: TeleportFlags)
        ensures
            r.spec_bits() == 0x8,
    {
        TeleportFlags { bits: 0x8 }
    }

    /// The flag set holding only its relative pitch bit.
    pub fn relative_pitch() -> (r: TeleportFlags)
        ensures
            r.spec_bits() == 0x10,
    {
        TeleportFlags { bits: 0x10 }
    }

    /// The flag set holding every defined bit.
    pub fn all() -> (r: TeleportFlags)
        ensures
            r.spec_bits() == 0x1f,
    {
        TeleportFlags { bits: 0x1f }
    }

    /// The raw bit pattern of this flag set.
    pub closed spec fn spec_bits(&self) -> u8 {
        self.bits
    }

    /// Returns the raw bit pattern of this flag set.
    pub fn bits(&self) -> (r: u8)
        ensures
            r == self.spec_bits(),
    {
        self.bits
    }

    /// Builds a flag set from a raw bit pattern.
    pub fn from_bits(bits: u8) -> (r: TeleportFlags)
        ensures
            r.spec_bits() == bits,
    {
        TeleportFlags { bits }
    }
}

/// Display options of a recipe book entry.
#[derive(Debug, Clone, Copy, PartialEq, Eq, Hash)]
pub struct RecipeBookFlags {
    bits: u8,
}

impl RecipeBookFlags {
    /// The flag set holding only its show notification bit.
    pub fn show_notification() -> (r: RecipeBookFlags)
        ensures
            r.spec_bits() == 0x1,
    {
        RecipeBookFlags { bits: 0x1 }
    }

    /// The flag set holding only its highlight new bit.
    pub fn highlight_new() -> (r: RecipeBookFlags)
        ensures
            r.spec_bits() == 0x2,
    {
        RecipeBookFlags { bits: 0x2 }
    }

    /// The flag set holding every defined bit.
    pub fn all() -> (r: RecipeBookFlags)
        ensures
            r.spec_bits() == 0x3,
    {
        RecipeBookFlags { bits: 0x3 }
    }

    /// The raw bit pattern of this flag set.
    pub closed spec fn spec_bits(&self) -> u8 {
        self.bits
    }

    /// Returns the raw bit pattern of this flag set.
    pub fn bits(&self) -> (r: u8)
        ensures
            r == self.spec_bits(),
    {
        self.bits
    }

    /// Builds a flag set from a raw bit pattern.
    pub fn from_bits(bits: u8) -> (r: RecipeBookFlags)
        ensures
            r.spec_bits() == bits,
    {
        RecipeBookFlags { bits }
    }
}

/// Friendly-fire options of a team.
#[derive(Debug, Clone, Copy, PartialEq, Eq, Hash)]
pub struct FriendlyFlags {
    bits: u8,
}

impl FriendlyFlags {
    /// The flag set holding only its allow friendly fire bit.
    pub fn allow_friendly_fire() -> (r: FriendlyFlags)
        ensures
            r.spec_bits() == 0x1,
    {
        FriendlyFlags { bits: 0x1 }
    }

    /// The flag set holding only its can see invisible teammates bit.
    pub fn can_see_invisible_teammates() -> (r: FriendlyFlags)
        ensures
            r.spec_bits() == 0x2,
    {
        FriendlyFlags { bits: 0x2 }
    }

    /// The flag set holding every defined bit.
    pub fn all() -> (r: FriendlyFlags)
        ensures
            r.spec_bits() == 0x3,
    {
        FriendlyFlags { bits: 0x3 }
    }

    /// The raw bit pattern of this flag set.
    pub closed spec fn spec_bits(&self) -> u8 {
        self.bits
    }

    /// Returns the raw bit pattern of this flag set.
    pub fn bits(&self) -> (r: u8)
        ensures
            r == self.spec_bits(),
    {
        self.bits
    }

    /// Builds a flag set from a raw bit pattern.
    pub fn from_bits(bits: u8) -> (r: FriendlyFlags)
        ensures
            r.spec_bits() == bits,
    {
        FriendlyFlags { bits }
    }
}

/// Display options of an entity effect.
#[derive(Debug, Clone, Copy, PartialEq, Eq, Hash)]
pub struct EntityEffectFlags {
    bits: u8,
}

impl EntityEffectFlags {
    /// The flag set holding only its is ambient bit.
    pub fn is_ambient() -> (r: EntityEffectFlags)
        ensures
            r.spec_bits() == 0x1,
    {
        EntityEffectFlags { bits: 0x1 }
    }

    /// The flag set holding only its show particles bit.
    pub fn show_particles() -> (r: EntityEffectFlags)
        ensures
            r.spec_bits() == 0x2,
    {
        EntityEffectFlags { bits: 0x2 }
    }

    /// The flag set holding only its show icon bit.
    pub fn show_icon() -> (r: EntityEffectFlags)
        ensures
            r.spec_bits() == 0x4,
    {
        EntityEffectFlags { bits: 0x4 }
    }

    /// The flag set holding only its blend bit.
    pub fn blend() -> (r: EntityEffectFlags)
        ensures
            r.spec_bits() == 0x8,
    {
        EntityEffectFlags { bits: 0x8 }
    }

    /// The flag set holding every defined bit.
    pub fn all() -> (r: EntityEffectFlags)
        ensures
            r.spec_bits() == 0xf,
    {
        EntityEffectFlags { bits: 0xf }
    }

    /// The raw bit pattern of this flag set.
    pub closed spec fn spec_bits(&self) -> u8 {
        self.bits
    }

    /// Returns the raw bit pattern of this flag set.
    pub fn bits(&self) -> (r: u8)
        ensures
            r == self.spec_bits(),
    {
        self.bits
    }

    /// Builds a flag set from a raw bit pattern.
    pub fn from_bits(bits: u8) -> (r: EntityEffectFlags)
        ensures
            r.spec_bits() == bits,
    {
        EntityEffectFlags { bits }
    }
}

/// Which parts of a stop-sound request are present.
#[derive(Debug, Clone, Copy, PartialEq, Eq, Hash)]
pub struct StopSoundFlags {
    bits: u8,
}

impl StopSoundFlags {
    /// The flag set holding only its has source bit.
    pub fn has_source() -> (r: StopSoundFlags)
        ensures
            r.spec_bits() == 0x1,
    {
        StopSoundFlags { bits: 0x1 }
    }

    /// The flag set holding only its has sound bit.
    pub fn has_sound() -> (r: StopSoundFlags)
        ensures
            r.spec_bits() == 0x2,
    {
        StopSoundFlags { bits: 0x2 }
    }

    /// The flag set holding every defined bit.
    pub fn all() -> (r: StopSoundFlags)
        ensures
            r.spec_bits() == 0x3,
    {
        StopSoundFlags { bits: 0x3 }
    }

    /// The raw bit pattern of this flag set.
    pub closed spec fn spec_bits(&self) -> u8 {
        self.bits
    }

    /// Returns the raw bit pattern of this flag set.
    pub fn bits(&self) -> (r: u8)
        ensures
            r == self.spec_bits(),
    {
        self.bits
    }

    /// Builds a flag set from a raw bit pattern.
    pub fn from_bits(bits: u8) -> (r: StopSoundFlags)
        ensures
            r.spec_bits() == bits,
    {
        StopSoundFlags { bits }
    }
}

/// Display options of an advancement.
#[derive(Debug, Clone, Copy, PartialEq, Eq, Hash)]
pub struct AdvancementFlags {
    bits: i32,
}

impl AdvancementFlags {
    /// The flag set holding only its has background texture bit.
    pub fn has_background_texture() -> (r: AdvancementFlags)
        ensures
            r.spec_bits() == 0x1,
    {
        AdvancementFlags { bits: 0x1 }
    }

    /// The flag set holding only its show toast bit.
    pub fn show_toast() -> (r: AdvancementFlags)
        ensures
            r.spec_bits() == 0x2,
    {
        AdvancementFlags { bits: 0x2 }
    }

    /// The flag set holding only its hidden bit.
    pub fn hidden() -> (r: AdvancementFlags)
        ensures
            r.spec_bits() == 0x4,
    {
        AdvancementFlags { bits: 0x4 }
    }

    /// The flag set holding every defined bit.
    pub fn all() -> (r: AdvancementFlags)
        ensures
            r.spec_bits() == 0x7,
    {
        AdvancementFlags { bits: 0x7 }
    }

    /// The raw bit pattern of this flag set.
    pub closed spec fn spec_bits(&self) -> i32 {
        self.bits
    }

    /// Returns the raw bit pattern of this flag set.
    pub fn bits(&self) -> (r: i32)
        ensures
            r == self.spec_bits(),
    {
        self.bits
    }

    /// Builds a flag set from a raw bit pattern.
    pub fn from_bits(bits: i32) -> (r: AdvancementFlags)
        ensures
            r.spec_bits() == bits,
    {
        AdvancementFlags { bits }
    }
}

/// What a respawn keeps from the previous life.
#[derive(Debug, Clone, Copy, PartialEq, Eq, Hash)]
pub struct RespawnDataKeptFlags {
    bits: u8,
}

impl RespawnDataKeptFlags {
    /// The flag set holding only its keep attributes bit.
    pub fn keep_attributes() -> (r: RespawnDataKeptFlags)
        ensures
            r.spec_bits() == 0x1,
    {
        RespawnDataKeptFlags { bits: 0x1 }
    }

    /// The flag set holding only its keep metadata bit.
    pub fn keep_metadata() -> (r: RespawnDataKeptFlags)
        ensures
            r.spec_bits() == 0x2,
    {
        RespawnDataKeptFlags { bits: 0x2 }
    }

    /// The flag set holding every defined bit.
    pub fn all() -> (r: RespawnDataKeptFlags)
        ensures
            r.spec_bits() == 0x3,
    {
        RespawnDataKeptFlags { bits: 0x3 }
    }

    /// The raw bit pattern of this flag set.
    pub closed spec fn spec_bits(&self) -> u8 {
        self.bits
    }

    /// Returns the raw bit pattern of this flag set.
    pub fn bits(&self) -> (r: u8)
        ensures
            r == self.spec_bits(),
    {
        self.bits
    }

    /// Builds a flag set from a raw bit pattern.
    pub fn from_bits(bits: u8) -> (r: RespawnDataKeptFlags)
        ensures
            r.spec_bits() == bits,
    {
        RespawnDataKeptFlags { bits }
    }
}

/// Either a registry reference by numeric identifier or an inline value.
#[derive(Debug, Clone, PartialEq)]
pub enum IdOr<T> {
    Id(VarInt),
    Inline(T),
}

/// The signature attached to one signed command argument.
#[derive(Debug, PartialEq, Clone)]
pub struct ArgumentSignature {
    pub argument_name: String,
    pub signature: Vec<u8>,
}

} // verus!
