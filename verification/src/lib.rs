//! Verified EverQuest Legends packet decoders: every parser is a total
//! function from a payload byte slice to a typed record or a typed error, with
//! its result pinned by a contract over the wire bytes.

// Shared building blocks.
pub mod decode_error;
pub mod links;
pub mod text;
pub mod wire;

// Spawns, positions and the local player's identity.
pub mod loadout_swap;
pub mod mob_update;
pub mod npc_move_update;
pub mod player_profile;
pub mod player_self_pos;
pub mod player_spawn_pos;
pub mod self_pos_breadcrumb;
pub mod self_track;
pub mod spawn;
pub mod spawn_appearance;
pub mod spawn_rename;

// Vitals, buffs and casting.
pub mod action_alt;
pub mod buff;
pub mod buff_list;
pub mod client_target;
pub mod mana_change;
pub mod mob_health;
pub mod start_cast;
pub mod stat_sync;

// Items, loot and money.
pub mod item_packet;
pub mod loot_drops;
pub mod loot_message;
pub mod loot_transaction;
pub mod money_update;

// Groups and guilds.
pub mod group_disband;
pub mod group_follow;
pub mod group_member_list;
pub mod group_roster;
pub mod guild_expanded_info;
pub mod guild_in_zone;
pub mod guild_motd;
pub mod guild_roster;

// World objects, messages and the rest.
pub mod chat_channel;
pub mod formatted_message;
pub mod ground_spawn;
pub mod short_records;
pub mod size_gate;
pub mod spawn_door;
pub mod zone_point;

pub use action_alt::{parse_action_alt, ActionAlt, ActionAltError};
pub use buff::{parse_buff, Buff, BuffError};
pub use buff_list::{parse_buff_list, BuffList, BuffListEntry};
pub use chat_channel::is_player_channel;
pub use client_target::{parse_client_target, ClientTarget, ClientTargetError};
pub use decode_error::DecodeError;
pub use formatted_message::{parse_formatted_message, FormattedMessage, FormattedMessageError};
pub use ground_spawn::{parse_ground_spawn, GroundSpawn, GroundSpawnError};
pub use group_disband::{parse_group_disband, GroupDisband, GroupDisbandError};
pub use group_follow::{parse_group_follow, GroupFollow, GroupFollowError};
pub use group_member_list::{parse_group_member_list, GroupMemberList, GroupMemberListError};
pub use group_roster::{parse_group_roster, GroupRoster, GroupRosterError};
pub use guild_expanded_info::{parse_expanded_guild_info, ExpandedGuildInfo};
pub use guild_in_zone::{
    parse_guilds_in_zone_list, parse_new_guild_in_zone, GuildInZone, GuildInZoneError,
};
pub use guild_motd::{parse_guild_motd, GuildMotd, GuildMotdError};
pub use guild_roster::{
    parse_guild_member_list, primary_class, GuildMemberRow, GuildRoster, GuildRosterError,
};
pub use item_packet::{parse_item_packet, ItemPacketError, ItemSet, ItemTemplate};
pub use links::{clean_links, item_id_from_link, ITEM_LINK_HEX};
pub use loadout_swap::{parse_loadout_swap, tail_of, LoadoutSwap, LoadoutSwapError};
pub use loot_drops::{parse_loot_drops, LootDrops, LootDropsError, LootItem};
pub use loot_message::{parse_loot_message, LootMessage, LootMessageError};
pub use loot_transaction::{parse_loot_transaction, LootTransaction, LootTransactionError};
pub use mana_change::{parse_mana_change, ManaChange, ManaChangeError};
pub use mob_health::{parse_mob_health, MobHealth, MobHealthError};
pub use mob_update::{parse_mob_update, MobUpdate, ParseError};
pub use money_update::{parse_money_update, MoneyUpdate, MoneyUpdateError};
pub use npc_move_update::{parse_npc_move_update, BitStream, NpcMoveUpdate, NpcMoveUpdateError};
pub use player_profile::{
    find_profile_spellbook, parse_player_profile, PlayerProfile, PlayerProfileError,
    SPELLBOOK_SLOTS,
};
pub use player_self_pos::{parse_player_self_pos, PlayerSelfPos, PlayerSelfPosError};
pub use player_spawn_pos::{parse_player_spawn_pos, PlayerSpawnPos, PlayerSpawnPosError};
pub use self_pos_breadcrumb::{parse_self_pos_breadcrumb, BreadcrumbPoint, SelfPosBreadcrumb};
pub use self_track::{SelfStat, SelfTracker, SpawnRouting, SAME_BATCH};
pub use short_records::{
    parse_aa_table_entry, parse_activate_ability, parse_begin_cast, parse_consider, AaTableEntry,
    BeginCast, Consider,
};
pub use size_gate::size_overrides;
pub use spawn::{parse_spawn, ZoneSpawn};
pub use spawn_appearance::{parse_spawn_appearance, SpawnAppearance, SpawnAppearanceError};
pub use spawn_door::{parse_door, Door, DoorError};
pub use spawn_rename::{parse_spawn_rename, SpawnRename, SpawnRenameError};
pub use start_cast::{parse_start_cast, StartCast, StartCastError};
pub use stat_sync::{parse_stat_sync, StatSync};
pub use zone_point::{parse_zone_point, ZonePoint, ZonePointError};
