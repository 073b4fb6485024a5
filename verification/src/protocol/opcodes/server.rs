//! Opcodes of the packets the server sends: the first byte of each packet.

use vstd::prelude::*;

verus! {

pub const S_OPCODE_INITPACKET: u8 = 150;
pub const S_OPCODE_SERVERVERSION: u8 = 139;
pub const S_OPCODE_LOGINRESULT: u8 = 233;
pub const S_OPCODE_CHARAMOUNT: u8 = 178;
pub const S_OPCODE_CHARSYNACK: u8 = 64;
pub const S_OPCODE_CHARLIST: u8 = 184;
pub const S_OPCODE_NEWCHARPACK: u8 = 127;
pub const S_OPCODE_NEWCHARWRONG: u8 = 98;
pub const S_OPCODE_LOGINTOGAME: u8 = 223;
pub const S_OPCODE_OWNCHARSTATUS: u8 = 8;
pub const S_OPCODE_OWNCHARSTATUS2: u8 = 155;
pub const S_OPCODE_MAPID: u8 = 206;
pub const S_OPCODE_CHARPACK: u8 = 87;
pub const S_OPCODE_SPMR: u8 = 37;
pub const S_OPCODE_WEATHER: u8 = 115;
pub const S_OPCODE_LIGHT: u8 = 40;
pub const S_OPCODE_GAMETIME: u8 = 123;
pub const S_OPCODE_ADDSKILL: u8 = 164;
pub const S_OPCODE_OWNCHARATTRDEF: u8 = 174;
pub const S_OPCODE_PACKETBOX: u8 = 250;
pub const S_OPCODE_HPUPDATE: u8 = 225;
pub const S_OPCODE_MPUPDATE: u8 = 33;
pub const S_OPCODE_ABILITY: u8 = 116;
pub const S_OPCODE_INVLIST: u8 = 5;
pub const S_OPCODE_ADDITEM: u8 = 15;
pub const S_OPCODE_DELETEINVENTORYITEM: u8 = 57;
pub const S_OPCODE_ITEMSTATUS: u8 = 24;
pub const S_OPCODE_NORMALCHAT: u8 = 81;
pub const S_OPCODE_GLOBALCHAT: u8 = 243;
pub const S_OPCODE_SERVERMSG: u8 = 71;
pub const S_OPCODE_CLANNAME: u8 = 72;
pub const S_OPCODE_WAR: u8 = 84;
pub const S_OPCODE_CASTLEMASTER: u8 = 66;
pub const S_OPCODE_EMBLEM: u8 = 118;
pub const S_OPCODE_CHARTITLE: u8 = 183;
pub const S_OPCODE_ATTACKPACKET: u8 = 30;
pub const S_OPCODE_DOACTIONGFX: u8 = 158;
pub const S_OPCODE_HPMETER: u8 = 237;
pub const S_OPCODE_MOVEOBJECT: u8 = 10;
pub const S_OPCODE_CHANGEHEADING: u8 = 122;
pub const S_OPCODE_SHOWHTML: u8 = 39;
pub const S_OPCODE_SHOWSHOPBUYLIST: u8 = 70;
pub const S_OPCODE_SHOWSHOPSELLLIST: u8 = 65;
pub const S_OPCODE_SELECTLIST: u8 = 208;
pub const S_OPCODE_YES_NO: u8 = 219;
pub const S_OPCODE_REMOVE_OBJECT: u8 = 120;
pub const S_OPCODE_SKILLSOUNDGFX: u8 = 55;
pub const S_OPCODE_EFFECTLOCATION: u8 = 112;
pub const S_OPCODE_SKILLHASTE: u8 = 255;
pub const S_OPCODE_SKILLBRAVE: u8 = 67;
pub const S_OPCODE_SKILLICONSHIELD: u8 = 216;
pub const S_OPCODE_PARALYSIS: u8 = 202;
pub const S_OPCODE_RANGESKILLS: u8 = 42;
pub const S_OPCODE_BOOKMARKS: u8 = 92;

} // verus!
