//! The registry parser: a recursive-descent driver over the XML event stream.
//!
//! The parsed registry mirrors the document: one type per element, one variant per grammar.

pub mod commands;
pub mod depends;
pub mod document;
pub mod enums;
pub mod features;
pub mod formats;
pub mod generic;
pub mod protocol;
pub mod registry;
pub mod spirv;
pub mod sync;
pub mod types;
pub mod values;
pub mod video;

pub use self::commands::AliasCommand;
pub use self::commands::Command;
pub use self::commands::CommandItem;
pub use self::commands::CommandParam;
pub use self::commands::CommandProto;
pub use self::commands::Commands;
pub use self::commands::CommandsItem;
pub use self::commands::DefinedCommand;
pub use self::commands::ImplicitExternSyncParam;
pub use self::commands::ImplicitExternSyncParams;
pub use self::depends::Depends;
pub use self::document::ParseSettings;
pub use self::enums::AliasEnum;
pub use self::enums::AliasEnumDetails;
pub use self::enums::BitDetails;
pub use self::enums::BitEnum;
pub use self::enums::ConstantDetails;
pub use self::enums::ConstantEnum;
pub use self::enums::Enum;
pub use self::enums::EnumCommon;
pub use self::enums::EnumDetails;
pub use self::enums::Enums;
pub use self::enums::EnumsItem;
pub use self::enums::Unused;
pub use self::enums::ValueDetails;
pub use self::enums::ValueEnum;
pub use self::features::Extension;
pub use self::features::ExtensionItem;
pub use self::features::Extensions;
pub use self::features::Feature;
pub use self::features::FeatureItem;
pub use self::features::Remove;
pub use self::features::Require;
pub use self::features::RequireCommand;
pub use self::features::RequireEnum;
pub use self::features::RequireEnumAlias;
pub use self::features::RequireEnumAliasDetails;
pub use self::features::RequireEnumBit;
pub use self::features::RequireEnumBitDetails;
pub use self::features::RequireEnumCommon;
pub use self::features::RequireEnumDetails;
pub use self::features::RequireEnumOffset;
pub use self::features::RequireEnumOffsetDetails;
pub use self::features::RequireEnumValue;
pub use self::features::RequireEnumValueDetails;
pub use self::features::RequireFeature;
pub use self::features::RequireItem;
pub use self::features::RequireType;
pub use self::formats::Component;
pub use self::formats::Format;
pub use self::formats::FormatItem;
pub use self::formats::Formats;
pub use self::formats::Plane;
pub use self::formats::SpirvImageFormat;
pub use self::generic::GenericItem;
pub use self::generic::GenericItemKind;
pub use self::protocol::GenericParse;
pub use self::protocol::Parse;
pub use self::protocol::Reader;
pub use self::protocol::parse_element;
pub use self::registry::Comment;
pub use self::registry::Platform;
pub use self::registry::Platforms;
pub use self::registry::Registry;
pub use self::registry::RegistryItem;
pub use self::registry::Tag;
pub use self::registry::Tags;
pub use self::spirv::Enable;
pub use self::spirv::EnableExtension;
pub use self::spirv::EnableFeature;
pub use self::spirv::EnableProperty;
pub use self::spirv::EnableVersion;
pub use self::spirv::SpirvCapabilities;
pub use self::spirv::SpirvCapability;
pub use self::spirv::SpirvExtension;
pub use self::spirv::SpirvExtensions;
pub use self::spirv::SpirvItem;
pub use self::sync::Sync;
pub use self::sync::SyncAccess;
pub use self::sync::SyncAccessEquivalent;
pub use self::sync::SyncAccessItem;
pub use self::sync::SyncAccessSupport;
pub use self::sync::SyncItem;
pub use self::sync::SyncPipeline;
pub use self::sync::SyncPipelineStage;
pub use self::sync::SyncStage;
pub use self::sync::SyncStageEquivalent;
pub use self::sync::SyncStageItem;
pub use self::sync::SyncStageSupport;
pub use self::types::BaseType;
pub use self::types::BaseTypeDetails;
pub use self::types::BitmaskDetails;
pub use self::types::BitmaskType;
pub use self::types::DefineDetails;
pub use self::types::DefineType;
pub use self::types::EnumType;
pub use self::types::EnumTypeDetails;
pub use self::types::FnPtrDetails;
pub use self::types::FnPtrType;
pub use self::types::HandleDetails;
pub use self::types::HandleType;
pub use self::types::ImportedDetails;
pub use self::types::ImportedType;
pub use self::types::IncludeDetails;
pub use self::types::IncludeType;
pub use self::types::Member;
pub use self::types::StructDetails;
pub use self::types::StructItem;
pub use self::types::StructType;
pub use self::types::Type;
pub use self::types::TypeCommon;
pub use self::types::TypeDetails;
pub use self::types::Types;
pub use self::types::TypesItem;
pub use self::types::UnionDetails;
pub use self::types::UnionType;
pub use self::values::Dir;
pub use self::values::EnumsType;
pub use self::values::ExternSync;
pub use self::values::Len;
pub use self::values::LimitType;
pub use self::video::VideoCapabilities;
pub use self::video::VideoCodec;
pub use self::video::VideoCodecItem;
pub use self::video::VideoCodecs;
pub use self::video::VideoFormat;
pub use self::video::VideoProfile;
pub use self::video::VideoProfileMember;
pub use self::video::VideoProfiles;
