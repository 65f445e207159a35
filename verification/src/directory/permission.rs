//! The permissions that a principal can be granted or denied.
use vstd::prelude::*;

verus! {

/// Something that a principal may be allowed to do. Each permission has a
/// number, given in the order of this list.
#[derive(Debug, Clone, Copy, PartialEq, Eq, Hash, Structural)]
pub enum Permission {
    Impersonate,
    UnlimitedRequests,
    UnlimitedUploads,
    DeleteSystemFolders,
    MessageQueueList,
    MessageQueueGet,
    MessageQueueUpdate,
    MessageQueueDelete,
    OutgoingReportList,
    OutgoingReportGet,
    OutgoingReportDelete,
    IncomingReportList,
    IncomingReportGet,
    IncomingReportDelete,
    SettingsList,
    SettingsUpdate,
    SettingsDelete,
    SettingsReload,
    IndividualList,
    IndividualGet,
    IndividualUpdate,
    IndividualDelete,
    IndividualCreate,
    GroupList,
    GroupGet,
    GroupUpdate,
    GroupDelete,
    GroupCreate,
    DomainList,
    DomainGet,
    DomainCreate,
    DomainUpdate,
    DomainDelete,
    TenantList,
    TenantGet,
    TenantCreate,
    TenantUpdate,
    TenantDelete,
    MailingListList,
    MailingListGet,
    MailingListCreate,
    MailingListUpdate,
    MailingListDelete,
    RoleList,
    RoleGet,
    RoleCreate,
    RoleUpdate,
    RoleDelete,
    PrincipalList,
    PrincipalGet,
    PrincipalCreate,
    PrincipalUpdate,
    PrincipalDelete,
    BlobFetch,
    PurgeBlobStore,
    PurgeDataStore,
    PurgeInMemoryStore,
    PurgeAccount,
    FtsReindex,
    Undelete,
    DkimSignatureCreate,
    DkimSignatureGet,
    SpamFilterUpdate,
    WebadminUpdate,
    LogsView,
    Restart,
    TracingList,
    TracingGet,
    TracingLive,
    MetricsList,
    MetricsLive,
    Authenticate,
    AuthenticateOauth,
    EmailSend,
    EmailReceive,
    ManageEncryption,
    ManagePasswords,
    JmapEmailGet,
    JmapMailboxGet,
    JmapThreadGet,
    JmapIdentityGet,
    JmapEmailSubmissionGet,
    JmapPushSubscriptionGet,
    JmapSieveScriptGet,
    JmapVacationResponseGet,
    JmapQuotaGet,
    JmapBlobGet,
    JmapEmailSet,
    JmapMailboxSet,
    JmapIdentitySet,
    JmapEmailSubmissionSet,
    JmapPushSubscriptionSet,
    JmapSieveScriptSet,
    JmapVacationResponseSet,
    JmapEmailChanges,
    JmapMailboxChanges,
    JmapThreadChanges,
    JmapIdentityChanges,
    JmapEmailSubmissionChanges,
    JmapQuotaChanges,
    JmapEmailCopy,
    JmapBlobCopy,
    JmapEmailImport,
    JmapEmailParse,
    JmapEmailQueryChanges,
    JmapMailboxQueryChanges,
    JmapEmailSubmissionQueryChanges,
    JmapSieveScriptQueryChanges,
    JmapQuotaQueryChanges,
    JmapEmailQuery,
    JmapMailboxQuery,
    JmapEmailSubmissionQuery,
    JmapSieveScriptQuery,
    JmapQuotaQuery,
    JmapSearchSnippet,
    JmapSieveScriptValidate,
    JmapBlobLookup,
    JmapBlobUpload,
    JmapEcho,
    ImapAuthenticate,
    ImapAclGet,
    ImapAclSet,
    ImapMyRights,
    ImapListRights,
    ImapAppend,
    ImapCapability,
    ImapId,
    ImapCopy,
    ImapMove,
    ImapCreate,
    ImapDelete,
    ImapEnable,
    ImapExpunge,
    ImapFetch,
    ImapIdle,
    ImapList,
    ImapLsub,
    ImapNamespace,
    ImapRename,
    ImapSearch,
    ImapSort,
    ImapSelect,
    ImapExamine,
    ImapStatus,
    ImapStore,
    ImapSubscribe,
    ImapThread,
    Pop3Authenticate,
    Pop3List,
    Pop3Uidl,
    Pop3Stat,
    Pop3Retr,
    Pop3Dele,
    SieveAuthenticate,
    SieveListScripts,
    SieveSetActive,
    SieveGetScript,
    SievePutScript,
    SieveDeleteScript,
    SieveRenameScript,
    SieveCheckScript,
    SieveHaveSpace,
    ApiKeyList,
    ApiKeyGet,
    ApiKeyCreate,
    ApiKeyUpdate,
    ApiKeyDelete,
    OauthClientList,
    OauthClientGet,
    OauthClientCreate,
    OauthClientUpdate,
    OauthClientDelete,
    OauthClientRegistration,
    OauthClientOverride,
    AiModelInteract,
    Troubleshoot,
    SpamFilterClassify,
    SpamFilterTrain,
    DavSyncCollection,
    DavExpandProperty,
    DavPrincipalAcl,
    DavPrincipalMatch,
    DavPrincipalSearchPropSet,
    DavFilePropFind,
    DavFilePropPatch,
    DavFileGet,
    DavFileMkCol,
    DavFileDelete,
    DavFilePut,
    DavFileCopy,
    DavFileMove,
    DavFileLock,
    DavFileAcl,
    DavCardPropFind,
    DavCardPropPatch,
    DavCardGet,
    DavCardMkCol,
    DavCardDelete,
    DavCardPut,
    DavCardCopy,
    DavCardMove,
    DavCardLock,
    DavCardAcl,
    DavCardQuery,
    DavCardMultiGet,
    DavCalPropFind,
    DavCalPropPatch,
    DavCalGet,
    DavCalMkCol,
    DavCalDelete,
    DavCalPut,
    DavCalCopy,
    DavCalMove,
    DavCalLock,
    DavCalAcl,
    DavCalQuery,
    DavCalMultiGet,
    DavCalFreeBusyQuery,
    CalendarAlarms,
    CalendarSchedulingSend,
    CalendarSchedulingReceive,
}

/// The permission with the given number, if there is one.
pub open spec fn permission_of_id(id: usize) -> Option<Permission> {
    match id {
        0 => Some(Permission::Impersonate),
        1 => Some(Permission::UnlimitedRequests),
        2 => Some(Permission::UnlimitedUploads),
        3 => Some(Permission::DeleteSystemFolders),
        4 => Some(Permission::MessageQueueList),
        5 => Some(Permission::MessageQueueGet),
        6 => Some(Permission::MessageQueueUpdate),
        7 => Some(Permission::MessageQueueDelete),
        8 => Some(Permission::OutgoingReportList),
        9 => Some(Permission::OutgoingReportGet),
        10 => Some(Permission::OutgoingReportDelete),
        11 => Some(Permission::IncomingReportList),
        12 => Some(Permission::IncomingReportGet),
        13 => Some(Permission::IncomingReportDelete),
        14 => Some(Permission::SettingsList),
        15 => Some(Permission::SettingsUpdate),
        16 => Some(Permission::SettingsDelete),
        17 => Some(Permission::SettingsReload),
        18 => Some(Permission::IndividualList),
        19 => Some(Permission::IndividualGet),
        20 => Some(Permission::IndividualUpdate),
        21 => Some(Permission::IndividualDelete),
        22 => Some(Permission::IndividualCreate),
        23 => Some(Permission::GroupList),
        24 => Some(Permission::GroupGet),
        25 => Some(Permission::GroupUpdate),
        26 => Some(Permission::GroupDelete),
        27 => Some(Permission::GroupCreate),
        28 => Some(Permission::DomainList),
        29 => Some(Permission::DomainGet),
        30 => Some(Permission::DomainCreate),
        31 => Some(Permission::DomainUpdate),
        32 => Some(Permission::DomainDelete),
        33 => Some(Permission::TenantList),
        34 => Some(Permission::TenantGet),
        35 => Some(Permission::TenantCreate),
        36 => Some(Permission::TenantUpdate),
        37 => Some(Permission::TenantDelete),
        38 => Some(Permission::MailingListList),
        39 => Some(Permission::MailingListGet),
        40 => Some(Permission::MailingListCreate),
        41 => Some(Permission::MailingListUpdate),
        42 => Some(Permission::MailingListDelete),
        43 => Some(Permission::RoleList),
        44 => Some(Permission::RoleGet),
        45 => Some(Permission::RoleCreate),
        46 => Some(Permission::RoleUpdate),
        47 => Some(Permission::RoleDelete),
        48 => Some(Permission::PrincipalList),
        49 => Some(Permission::PrincipalGet),
        50 => Some(Permission::PrincipalCreate),
        51 => Some(Permission::PrincipalUpdate),
        52 => Some(Permission::PrincipalDelete),
        53 => Some(Permission::BlobFetch),
        54 => Some(Permission::PurgeBlobStore),
        55 => Some(Permission::PurgeDataStore),
        56 => Some(Permission::PurgeInMemoryStore),
        57 => Some(Permission::PurgeAccount),
        58 => Some(Permission::FtsReindex),
        59 => Some(Permission::Undelete),
        60 => Some(Permission::DkimSignatureCreate),
        61 => Some(Permission::DkimSignatureGet),
        62 => Some(Permission::SpamFilterUpdate),
        63 => Some(Permission::WebadminUpdate),
        64 => Some(Permission::LogsView),
        65 => Some(Permission::Restart),
        66 => Some(Permission::TracingList),
        67 => Some(Permission::TracingGet),
        68 => Some(Permission::TracingLive),
        69 => Some(Permission::MetricsList),
        70 => Some(Permission::MetricsLive),
        71 => Some(Permission::Authenticate),
        72 => Some(Permission::AuthenticateOauth),
        73 => Some(Permission::EmailSend),
        74 => Some(Permission::EmailReceive),
        75 => Some(Permission::ManageEncryption),
        76 => Some(Permission::ManagePasswords),
        77 => Some(Permission::JmapEmailGet),
        78 => Some(Permission::JmapMailboxGet),
        79 => Some(Permission::JmapThreadGet),
        80 => Some(Permission::JmapIdentityGet),
        81 => Some(Permission::JmapEmailSubmissionGet),
        82 => Some(Permission::JmapPushSubscriptionGet),
        83 => Some(Permission::JmapSieveScriptGet),
        84 => Some(Permission::JmapVacationResponseGet),
        85 => Some(Permission::JmapQuotaGet),
        86 => Some(Permission::JmapBlobGet),
        87 => Some(Permission::JmapEmailSet),
        88 => Some(Permission::JmapMailboxSet),
        89 => Some(Permission::JmapIdentitySet),
        90 => Some(Permission::JmapEmailSubmissionSet),
        91 => Some(Permission::JmapPushSubscriptionSet),
        92 => Some(Permission::JmapSieveScriptSet),
        93 => Some(Permission::JmapVacationResponseSet),
        94 => Some(Permission::JmapEmailChanges),
        95 => Some(Permission::JmapMailboxChanges),
        96 => Some(Permission::JmapThreadChanges),
        97 => Some(Permission::JmapIdentityChanges),
        98 => Some(Permission::JmapEmailSubmissionChanges),
        99 => Some(Permission::JmapQuotaChanges),
        100 => Some(Permission::JmapEmailCopy),
        101 => Some(Permission::JmapBlobCopy),
        102 => Some(Permission::JmapEmailImport),
        103 => Some(Permission::JmapEmailParse),
        104 => Some(Permission::JmapEmailQueryChanges),
        105 => Some(Permission::JmapMailboxQueryChanges),
        106 => Some(Permission::JmapEmailSubmissionQueryChanges),
        107 => Some(Permission::JmapSieveScriptQueryChanges),
        108 => Some(Permission::JmapQuotaQueryChanges),
        109 => Some(Permission::JmapEmailQuery),
        110 => Some(Permission::JmapMailboxQuery),
        111 => Some(Permission::JmapEmailSubmissionQuery),
        112 => Some(Permission::JmapSieveScriptQuery),
        113 => Some(Permission::JmapQuotaQuery),
        114 => Some(Permission::JmapSearchSnippet),
        115 => Some(Permission::JmapSieveScriptValidate),
        116 => Some(Permission::JmapBlobLookup),
        117 => Some(Permission::JmapBlobUpload),
        118 => Some(Permission::JmapEcho),
        119 => Some(Permission::ImapAuthenticate),
        120 => Some(Permission::ImapAclGet),
        121 => Some(Permission::ImapAclSet),
        122 => Some(Permission::ImapMyRights),
        123 => Some(Permission::ImapListRights),
        124 => Some(Permission::ImapAppend),
        125 => Some(Permission::ImapCapability),
        126 => Some(Permission::ImapId),
        127 => Some(Permission::ImapCopy),
        128 => Some(Permission::ImapMove),
        129 => Some(Permission::ImapCreate),
        130 => Some(Permission::ImapDelete),
        131 => Some(Permission::ImapEnable),
        132 => Some(Permission::ImapExpunge),
        133 => Some(Permission::ImapFetch),
        134 => Some(Permission::ImapIdle),
        135 => Some(Permission::ImapList),
        136 => Some(Permission::ImapLsub),
        137 => Some(Permission::ImapNamespace),
        138 => Some(Permission::ImapRename),
        139 => Some(Permission::ImapSearch),
        140 => Some(Permission::ImapSort),
        141 => Some(Permission::ImapSelect),
        142 => Some(Permission::ImapExamine),
        143 => Some(Permission::ImapStatus),
        144 => Some(Permission::ImapStore),
        145 => Some(Permission::ImapSubscribe),
        146 => Some(Permission::ImapThread),
        147 => Some(Permission::Pop3Authenticate),
        148 => Some(Permission::Pop3List),
        149 => Some(Permission::Pop3Uidl),
        150 => Some(Permission::Pop3Stat),
        151 => Some(Permission::Pop3Retr),
        152 => Some(Permission::Pop3Dele),
        153 => Some(Permission::SieveAuthenticate),
        154 => Some(Permission::SieveListScripts),
        155 => Some(Permission::SieveSetActive),
        156 => Some(Permission::SieveGetScript),
        157 => Some(Permission::SievePutScript),
        158 => Some(Permission::SieveDeleteScript),
        159 => Some(Permission::SieveRenameScript),
        160 => Some(Permission::SieveCheckScript),
        161 => Some(Permission::SieveHaveSpace),
        162 => Some(Permission::ApiKeyList),
        163 => Some(Permission::ApiKeyGet),
        164 => Some(Permission::ApiKeyCreate),
        165 => Some(Permission::ApiKeyUpdate),
        166 => Some(Permission::ApiKeyDelete),
        167 => Some(Permission::OauthClientList),
        168 => Some(Permission::OauthClientGet),
        169 => Some(Permission::OauthClientCreate),
        170 => Some(Permission::OauthClientUpdate),
        171 => Some(Permission::OauthClientDelete),
        172 => Some(Permission::OauthClientRegistration),
        173 => Some(Permission::OauthClientOverride),
        174 => Some(Permission::AiModelInteract),
        175 => Some(Permission::Troubleshoot),
        176 => Some(Permission::SpamFilterClassify),
        177 => Some(Permission::SpamFilterTrain),
        178 => Some(Permission::DavSyncCollection),
        179 => Some(Permission::DavExpandProperty),
        180 => Some(Permission::DavPrincipalAcl),
        181 => Some(Permission::DavPrincipalMatch),
        182 => Some(Permission::DavPrincipalSearchPropSet),
        183 => Some(Permission::DavFilePropFind),
        184 => Some(Permission::DavFilePropPatch),
        185 => Some(Permission::DavFileGet),
        186 => Some(Permission::DavFileMkCol),
        187 => Some(Permission::DavFileDelete),
        188 => Some(Permission::DavFilePut),
        189 => Some(Permission::DavFileCopy),
        190 => Some(Permission::DavFileMove),
        191 => Some(Permission::DavFileLock),
        192 => Some(Permission::DavFileAcl),
        193 => Some(Permission::DavCardPropFind),
        194 => Some(Permission::DavCardPropPatch),
        195 => Some(Permission::DavCardGet),
        196 => Some(Permission::DavCardMkCol),
        197 => Some(Permission::DavCardDelete),
        198 => Some(Permission::DavCardPut),
        199 => Some(Permission::DavCardCopy),
        200 => Some(Permission::DavCardMove),
        201 => Some(Permission::DavCardLock),
        202 => Some(Permission::DavCardAcl),
        203 => Some(Permission::DavCardQuery),
        204 => Some(Permission::DavCardMultiGet),
        205 => Some(Permission::DavCalPropFind),
        206 => Some(Permission::DavCalPropPatch),
        207 => Some(Permission::DavCalGet),
        208 => Some(Permission::DavCalMkCol),
        209 => Some(Permission::DavCalDelete),
        210 => Some(Permission::DavCalPut),
        211 => Some(Permission::DavCalCopy),
        212 => Some(Permission::DavCalMove),
        213 => Some(Permission::DavCalLock),
        214 => Some(Permission::DavCalAcl),
        215 => Some(Permission::DavCalQuery),
        216 => Some(Permission::DavCalMultiGet),
        217 => Some(Permission::DavCalFreeBusyQuery),
        218 => Some(Permission::CalendarAlarms),
        219 => Some(Permission::CalendarSchedulingSend),
        220 => Some(Permission::CalendarSchedulingReceive),
        _ => None,
    }
}

impl Permission {
    /// The number of permissions.
    pub const COUNT: usize = 221;

    /// The number of the permission.
    pub open spec fn spec_id(self) -> usize {
        match self {
            Permission::Impersonate => 0,
            Permission::UnlimitedRequests => 1,
            Permission::UnlimitedUploads => 2,
            Permission::DeleteSystemFolders => 3,
            Permission::MessageQueueList => 4,
            Permission::MessageQueueGet => 5,
            Permission::MessageQueueUpdate => 6,
            Permission::MessageQueueDelete => 7,
            Permission::OutgoingReportList => 8,
            Permission::OutgoingReportGet => 9,
            Permission::OutgoingReportDelete => 10,
            Permission::IncomingReportList => 11,
            Permission::IncomingReportGet => 12,
            Permission::IncomingReportDelete => 13,
            Permission::SettingsList => 14,
            Permission::SettingsUpdate => 15,
            Permission::SettingsDelete => 16,
            Permission::SettingsReload => 17,
            Permission::IndividualList => 18,
            Permission::IndividualGet => 19,
            Permission::IndividualUpdate => 20,
            Permission::IndividualDelete => 21,
            Permission::IndividualCreate => 22,
            Permission::GroupList => 23,
            Permission::GroupGet => 24,
            Permission::GroupUpdate => 25,
            Permission::GroupDelete => 26,
            Permission::GroupCreate => 27,
            Permission::DomainList => 28,
            Permission::DomainGet => 29,
            Permission::DomainCreate => 30,
            Permission::DomainUpdate => 31,
            Permission::DomainDelete => 32,
            Permission::TenantList => 33,
            Permission::TenantGet => 34,
            Permission::TenantCreate => 35,
            Permission::TenantUpdate => 36,
            Permission::TenantDelete => 37,
            Permission::MailingListList => 38,
            Permission::MailingListGet => 39,
            Permission::MailingListCreate => 40,
            Permission::MailingListUpdate => 41,
            Permission::MailingListDelete => 42,
            Permission::RoleList => 43,
            Permission::RoleGet => 44,
            Permission::RoleCreate => 45,
            Permission::RoleUpdate => 46,
            Permission::RoleDelete => 47,
            Permission::PrincipalList => 48,
            Permission::PrincipalGet => 49,
            Permission::PrincipalCreate => 50,
            Permission::PrincipalUpdate => 51,
            Permission::PrincipalDelete => 52,
            Permission::BlobFetch => 53,
            Permission::PurgeBlobStore => 54,
            Permission::PurgeDataStore => 55,
            Permission::PurgeInMemoryStore => 56,
            Permission::PurgeAccount => 57,
            Permission::FtsReindex => 58,
            Permission::Undelete => 59,
            Permission::DkimSignatureCreate => 60,
            Permission::DkimSignatureGet => 61,
            Permission::SpamFilterUpdate => 62,
            Permission::WebadminUpdate => 63,
            Permission::LogsView => 64,
            Permission::Restart => 65,
            Permission::TracingList => 66,
            Permission::TracingGet => 67,
            Permission::TracingLive => 68,
            Permission::MetricsList => 69,
            Permission::MetricsLive => 70,
            Permission::Authenticate => 71,
            Permission::AuthenticateOauth => 72,
            Permission::EmailSend => 73,
            Permission::EmailReceive => 74,
            Permission::ManageEncryption => 75,
            Permission::ManagePasswords => 76,
            Permission::JmapEmailGet => 77,
            Permission::JmapMailboxGet => 78,
            Permission::JmapThreadGet => 79,
            Permission::JmapIdentityGet => 80,
            Permission::JmapEmailSubmissionGet => 81,
            Permission::JmapPushSubscriptionGet => 82,
            Permission::JmapSieveScriptGet => 83,
            Permission::JmapVacationResponseGet => 84,
            Permission::JmapQuotaGet => 85,
            Permission::JmapBlobGet => 86,
            Permission::JmapEmailSet => 87,
            Permission::JmapMailboxSet => 88,
            Permission::JmapIdentitySet => 89,
            Permission::JmapEmailSubmissionSet => 90,
            Permission::JmapPushSubscriptionSet => 91,
            Permission::JmapSieveScriptSet => 92,
            Permission::JmapVacationResponseSet => 93,
            Permission::JmapEmailChanges => 94,
            Permission::JmapMailboxChanges => 95,
            Permission::JmapThreadChanges => 96,
            Permission::JmapIdentityChanges => 97,
            Permission::JmapEmailSubmissionChanges => 98,
            Permission::JmapQuotaChanges => 99,
            Permission::JmapEmailCopy => 100,
            Permission::JmapBlobCopy => 101,
            Permission::JmapEmailImport => 102,
            Permission::JmapEmailParse => 103,
            Permission::JmapEmailQueryChanges => 104,
            Permission::JmapMailboxQueryChanges => 105,
            Permission::JmapEmailSubmissionQueryChanges => 106,
            Permission::JmapSieveScriptQueryChanges => 107,
            Permission::JmapQuotaQueryChanges => 108,
            Permission::JmapEmailQuery => 109,
            Permission::JmapMailboxQuery => 110,
            Permission::JmapEmailSubmissionQuery => 111,
            Permission::JmapSieveScriptQuery => 112,
            Permission::JmapQuotaQuery => 113,
            Permission::JmapSearchSnippet => 114,
            Permission::JmapSieveScriptValidate => 115,
            Permission::JmapBlobLookup => 116,
            Permission::JmapBlobUpload => 117,
            Permission::JmapEcho => 118,
            Permission::ImapAuthenticate => 119,
            Permission::ImapAclGet => 120,
            Permission::ImapAclSet => 121,
            Permission::ImapMyRights => 122,
            Permission::ImapListRights => 123,
            Permission::ImapAppend => 124,
            Permission::ImapCapability => 125,
            Permission::ImapId => 126,
            Permission::ImapCopy => 127,
            Permission::ImapMove => 128,
            Permission::ImapCreate => 129,
            Permission::ImapDelete => 130,
            Permission::ImapEnable => 131,
            Permission::ImapExpunge => 132,
            Permission::ImapFetch => 133,
            Permission::ImapIdle => 134,
            Permission::ImapList => 135,
            Permission::ImapLsub => 136,
            Permission::ImapNamespace => 137,
            Permission::ImapRename => 138,
            Permission::ImapSearch => 139,
            Permission::ImapSort => 140,
            Permission::ImapSelect => 141,
            Permission::ImapExamine => 142,
            Permission::ImapStatus => 143,
            Permission::ImapStore => 144,
            Permission::ImapSubscribe => 145,
            Permission::ImapThread => 146,
            Permission::Pop3Authenticate => 147,
            Permission::Pop3List => 148,
            Permission::Pop3Uidl => 149,
            Permission::Pop3Stat => 150,
            Permission::Pop3Retr => 151,
            Permission::Pop3Dele => 152,
            Permission::SieveAuthenticate => 153,
            Permission::SieveListScripts => 154,
            Permission::SieveSetActive => 155,
            Permission::SieveGetScript => 156,
            Permission::SievePutScript => 157,
            Permission::SieveDeleteScript => 158,
            Permission::SieveRenameScript => 159,
            Permission::SieveCheckScript => 160,
            Permission::SieveHaveSpace => 161,
            Permission::ApiKeyList => 162,
            Permission::ApiKeyGet => 163,
            Permission::ApiKeyCreate => 164,
            Permission::ApiKeyUpdate => 165,
            Permission::ApiKeyDelete => 166,
            Permission::OauthClientList => 167,
            Permission::OauthClientGet => 168,
            Permission::OauthClientCreate => 169,
            Permission::OauthClientUpdate => 170,
            Permission::OauthClientDelete => 171,
            Permission::OauthClientRegistration => 172,
            Permission::OauthClientOverride => 173,
            Permission::AiModelInteract => 174,
            Permission::Troubleshoot => 175,
            Permission::SpamFilterClassify => 176,
            Permission::SpamFilterTrain => 177,
            Permission::DavSyncCollection => 178,
            Permission::DavExpandProperty => 179,
            Permission::DavPrincipalAcl => 180,
            Permission::DavPrincipalMatch => 181,
            Permission::DavPrincipalSearchPropSet => 182,
            Permission::DavFilePropFind => 183,
            Permission::DavFilePropPatch => 184,
            Permission::DavFileGet => 185,
            Permission::DavFileMkCol => 186,
            Permission::DavFileDelete => 187,
            Permission::DavFilePut => 188,
            Permission::DavFileCopy => 189,
            Permission::DavFileMove => 190,
            Permission::DavFileLock => 191,
            Permission::DavFileAcl => 192,
            Permission::DavCardPropFind => 193,
            Permission::DavCardPropPatch => 194,
            Permission::DavCardGet => 195,
            Permission::DavCardMkCol => 196,
            Permission::DavCardDelete => 197,
            Permission::DavCardPut => 198,
            Permission::DavCardCopy => 199,
            Permission::DavCardMove => 200,
            Permission::DavCardLock => 201,
            Permission::DavCardAcl => 202,
            Permission::DavCardQuery => 203,
            Permission::DavCardMultiGet => 204,
            Permission::DavCalPropFind => 205,
            Permission::DavCalPropPatch => 206,
            Permission::DavCalGet => 207,
            Permission::DavCalMkCol => 208,
            Permission::DavCalDelete => 209,
            Permission::DavCalPut => 210,
            Permission::DavCalCopy => 211,
            Permission::DavCalMove => 212,
            Permission::DavCalLock => 213,
            Permission::DavCalAcl => 214,
            Permission::DavCalQuery => 215,
            Permission::DavCalMultiGet => 216,
            Permission::DavCalFreeBusyQuery => 217,
            Permission::CalendarAlarms => 218,
            Permission::CalendarSchedulingSend => 219,
            Permission::CalendarSchedulingReceive => 220,
        }
    }

    /// Whether an account needs the permission for its own mail, calendars,
    /// contacts and files, as opposed to the administration of the server.
    pub open spec fn spec_is_user_permission(&self) -> bool {
        match self {
            Permission::Authenticate
            | Permission::AuthenticateOauth
            | Permission::EmailSend
            | Permission::EmailReceive
            | Permission::ManageEncryption
            | Permission::ManagePasswords
            | Permission::JmapEmailGet
            | Permission::JmapMailboxGet
            | Permission::JmapThreadGet
            | Permission::JmapIdentityGet
            | Permission::JmapEmailSubmissionGet
            | Permission::JmapPushSubscriptionGet
            | Permission::JmapSieveScriptGet
            | Permission::JmapVacationResponseGet
            | Permission::JmapQuotaGet
            | Permission::JmapBlobGet
            | Permission::JmapEmailSet
            | Permission::JmapMailboxSet
            | Permission::JmapIdentitySet
            | Permission::JmapEmailSubmissionSet
            | Permission::JmapPushSubscriptionSet
            | Permission::JmapSieveScriptSet
            | Permission::JmapVacationResponseSet
            | Permission::JmapEmailChanges
            | Permission::JmapMailboxChanges
            | Permission::JmapThreadChanges
            | Permission::JmapIdentityChanges
            | Permission::JmapEmailSubmissionChanges
            | Permission::JmapQuotaChanges
            | Permission::JmapEmailCopy
            | Permission::JmapBlobCopy
            | Permission::JmapEmailImport
            | Permission::JmapEmailParse
            | Permission::JmapEmailQueryChanges
            | Permission::JmapMailboxQueryChanges
            | Permission::JmapEmailSubmissionQueryChanges
            | Permission::JmapSieveScriptQueryChanges
            | Permission::JmapQuotaQueryChanges
            | Permission::JmapEmailQuery
            | Permission::JmapMailboxQuery
            | Permission::JmapEmailSubmissionQuery
            | Permission::JmapSieveScriptQuery
            | Permission::JmapQuotaQuery
            | Permission::JmapSearchSnippet
            | Permission::JmapSieveScriptValidate
            | Permission::JmapBlobLookup
            | Permission::JmapBlobUpload
            | Permission::JmapEcho
            | Permission::ImapAuthenticate
            | Permission::ImapAclGet
            | Permission::ImapAclSet
            | Permission::ImapMyRights
            | Permission::ImapListRights
            | Permission::ImapAppend
            | Permission::ImapCapability
            | Permission::ImapId
            | Permission::ImapCopy
            | Permission::ImapMove
            | Permission::ImapCreate
            | Permission::ImapDelete
            | Permission::ImapEnable
            | Permission::ImapExpunge
            | Permission::ImapFetch
            | Permission::ImapIdle
            | Permission::ImapList
            | Permission::ImapLsub
            | Permission::ImapNamespace
            | Permission::ImapRename
            | Permission::ImapSearch
            | Permission::ImapSort
            | Permission::ImapSelect
            | Permission::ImapExamine
            | Permission::ImapStatus
            | Permission::ImapStore
            | Permission::ImapSubscribe
            | Permission::ImapThread
            | Permission::Pop3Authenticate
            | Permission::Pop3List
            | Permission::Pop3Uidl
            | Permission::Pop3Stat
            | Permission::Pop3Retr
            | Permission::Pop3Dele
            | Permission::SieveAuthenticate
            | Permission::SieveListScripts
            | Permission::SieveSetActive
            | Permission::SieveGetScript
            | Permission::SievePutScript
            | Permission::SieveDeleteScript
            | Permission::SieveRenameScript
            | Permission::SieveCheckScript
            | Permission::SieveHaveSpace
            | Permission::SpamFilterClassify
            | Permission::SpamFilterTrain
            | Permission::DavSyncCollection
            | Permission::DavExpandProperty
            | Permission::DavPrincipalAcl
            | Permission::DavPrincipalMatch
            | Permission::DavPrincipalSearchPropSet
            | Permission::DavFilePropFind
            | Permission::DavFilePropPatch
            | Permission::DavFileGet
            | Permission::DavFileMkCol
            | Permission::DavFileDelete
            | Permission::DavFilePut
            | Permission::DavFileCopy
            | Permission::DavFileMove
            | Permission::DavFileLock
            | Permission::DavFileAcl
            | Permission::DavCardPropFind
            | Permission::DavCardPropPatch
            | Permission::DavCardGet
            | Permission::DavCardMkCol
            | Permission::DavCardDelete
            | Permission::DavCardPut
            | Permission::DavCardCopy
            | Permission::DavCardMove
            | Permission::DavCardLock
            | Permission::DavCardAcl
            | Permission::DavCardQuery
            | Permission::DavCardMultiGet
            | Permission::DavCalPropFind
            | Permission::DavCalPropPatch
            | Permission::DavCalGet
            | Permission::DavCalMkCol
            | Permission::DavCalDelete
            | Permission::DavCalPut
            | Permission::DavCalCopy
            | Permission::DavCalMove
            | Permission::DavCalLock
            | Permission::DavCalAcl
            | Permission::DavCalQuery
            | Permission::DavCalMultiGet
            | Permission::DavCalFreeBusyQuery
            | Permission::CalendarAlarms
            | Permission::CalendarSchedulingSend
            | Permission::CalendarSchedulingReceive => true,
            _ => false,
        }
    }

    /// The number of the permission, below `COUNT`.
    #[verifier::when_used_as_spec(spec_id)]
    pub fn id(self) -> (id: usize)
        ensures
            id == self.spec_id(),
            id < Permission::COUNT,
            permission_of_id(id) == Some(self),
    {
        match self {
            Permission::Impersonate => 0,
            Permission::UnlimitedRequests => 1,
            Permission::UnlimitedUploads => 2,
            Permission::DeleteSystemFolders => 3,
            Permission::MessageQueueList => 4,
            Permission::MessageQueueGet => 5,
            Permission::MessageQueueUpdate => 6,
            Permission::MessageQueueDelete => 7,
            Permission::OutgoingReportList => 8,
            Permission::OutgoingReportGet => 9,
            Permission::OutgoingReportDelete => 10,
            Permission::IncomingReportList => 11,
            Permission::IncomingReportGet => 12,
            Permission::IncomingReportDelete => 13,
            Permission::SettingsList => 14,
            Permission::SettingsUpdate => 15,
            Permission::SettingsDelete => 16,
            Permission::SettingsReload => 17,
            Permission::IndividualList => 18,
            Permission::IndividualGet => 19,
            Permission::IndividualUpdate => 20,
            Permission::IndividualDelete => 21,
            Permission::IndividualCreate => 22,
            Permission::GroupList => 23,
            Permission::GroupGet => 24,
            Permission::GroupUpdate => 25,
            Permission::GroupDelete => 26,
            Permission::GroupCreate => 27,
            Permission::DomainList => 28,
            Permission::DomainGet => 29,
            Permission::DomainCreate => 30,
            Permission::DomainUpdate => 31,
            Permission::DomainDelete => 32,
            Permission::TenantList => 33,
            Permission::TenantGet => 34,
            Permission::TenantCreate => 35,
            Permission::TenantUpdate => 36,
            Permission::TenantDelete => 37,
            Permission::MailingListList => 38,
            Permission::MailingListGet => 39,
            Permission::MailingListCreate => 40,
            Permission::MailingListUpdate => 41,
            Permission::MailingListDelete => 42,
            Permission::RoleList => 43,
            Permission::RoleGet => 44,
            Permission::RoleCreate => 45,
            Permission::RoleUpdate => 46,
            Permission::RoleDelete => 47,
            Permission::PrincipalList => 48,
            Permission::PrincipalGet => 49,
            Permission::PrincipalCreate => 50,
            Permission::PrincipalUpdate => 51,
            Permission::PrincipalDelete => 52,
            Permission::BlobFetch => 53,
            Permission::PurgeBlobStore => 54,
            Permission::PurgeDataStore => 55,
            Permission::PurgeInMemoryStore => 56,
            Permission::PurgeAccount => 57,
            Permission::FtsReindex => 58,
            Permission::Undelete => 59,
            Permission::DkimSignatureCreate => 60,
            Permission::DkimSignatureGet => 61,
            Permission::SpamFilterUpdate => 62,
            Permission::WebadminUpdate => 63,
            Permission::LogsView => 64,
            Permission::Restart => 65,
            Permission::TracingList => 66,
            Permission::TracingGet => 67,
            Permission::TracingLive => 68,
            Permission::MetricsList => 69,
            Permission::MetricsLive => 70,
            Permission::Authenticate => 71,
            Permission::AuthenticateOauth => 72,
            Permission::EmailSend => 73,
            Permission::EmailReceive => 74,
            Permission::ManageEncryption => 75,
            Permission::ManagePasswords => 76,
            Permission::JmapEmailGet => 77,
            Permission::JmapMailboxGet => 78,
            Permission::JmapThreadGet => 79,
            Permission::JmapIdentityGet => 80,
            Permission::JmapEmailSubmissionGet => 81,
            Permission::JmapPushSubscriptionGet => 82,
            Permission::JmapSieveScriptGet => 83,
            Permission::JmapVacationResponseGet => 84,
            Permission::JmapQuotaGet => 85,
            Permission::JmapBlobGet => 86,
            Permission::JmapEmailSet => 87,
            Permission::JmapMailboxSet => 88,
            Permission::JmapIdentitySet => 89,
            Permission::JmapEmailSubmissionSet => 90,
            Permission::JmapPushSubscriptionSet => 91,
            Permission::JmapSieveScriptSet => 92,
            Permission::JmapVacationResponseSet => 93,
            Permission::JmapEmailChanges => 94,
            Permission::JmapMailboxChanges => 95,
            Permission::JmapThreadChanges => 96,
            Permission::JmapIdentityChanges => 97,
            Permission::JmapEmailSubmissionChanges => 98,
            Permission::JmapQuotaChanges => 99,
            Permission::JmapEmailCopy => 100,
            Permission::JmapBlobCopy => 101,
            Permission::JmapEmailImport => 102,
            Permission::JmapEmailParse => 103,
            Permission::JmapEmailQueryChanges => 104,
            Permission::JmapMailboxQueryChanges => 105,
            Permission::JmapEmailSubmissionQueryChanges => 106,
            Permission::JmapSieveScriptQueryChanges => 107,
            Permission::JmapQuotaQueryChanges => 108,
            Permission::JmapEmailQuery => 109,
            Permission::JmapMailboxQuery => 110,
            Permission::JmapEmailSubmissionQuery => 111,
            Permission::JmapSieveScriptQuery => 112,
            Permission::JmapQuotaQuery => 113,
            Permission::JmapSearchSnippet => 114,
            Permission::JmapSieveScriptValidate => 115,
            Permission::JmapBlobLookup => 116,
            Permission::JmapBlobUpload => 117,
            Permission::JmapEcho => 118,
            Permission::ImapAuthenticate => 119,
            Permission::ImapAclGet => 120,
            Permission::ImapAclSet => 121,
            Permission::ImapMyRights => 122,
            Permission::ImapListRights => 123,
            Permission::ImapAppend => 124,
            Permission::ImapCapability => 125,
            Permission::ImapId => 126,
            Permission::ImapCopy => 127,
            Permission::ImapMove => 128,
            Permission::ImapCreate => 129,
            Permission::ImapDelete => 130,
            Permission::ImapEnable => 131,
            Permission::ImapExpunge => 132,
            Permission::ImapFetch => 133,
            Permission::ImapIdle => 134,
            Permission::ImapList => 135,
            Permission::ImapLsub => 136,
            Permission::ImapNamespace => 137,
            Permission::ImapRename => 138,
            Permission::ImapSearch => 139,
            Permission::ImapSort => 140,
            Permission::ImapSelect => 141,
            Permission::ImapExamine => 142,
            Permission::ImapStatus => 143,
            Permission::ImapStore => 144,
            Permission::ImapSubscribe => 145,
            Permission::ImapThread => 146,
            Permission::Pop3Authenticate => 147,
            Permission::Pop3List => 148,
            Permission::Pop3Uidl => 149,
            Permission::Pop3Stat => 150,
            Permission::Pop3Retr => 151,
            Permission::Pop3Dele => 152,
            Permission::SieveAuthenticate => 153,
            Permission::SieveListScripts => 154,
            Permission::SieveSetActive => 155,
            Permission::SieveGetScript => 156,
            Permission::SievePutScript => 157,
            Permission::SieveDeleteScript => 158,
            Permission::SieveRenameScript => 159,
            Permission::SieveCheckScript => 160,
            Permission::SieveHaveSpace => 161,
            Permission::ApiKeyList => 162,
            Permission::ApiKeyGet => 163,
            Permission::ApiKeyCreate => 164,
            Permission::ApiKeyUpdate => 165,
            Permission::ApiKeyDelete => 166,
            Permission::OauthClientList => 167,
            Permission::OauthClientGet => 168,
            Permission::OauthClientCreate => 169,
            Permission::OauthClientUpdate => 170,
            Permission::OauthClientDelete => 171,
            Permission::OauthClientRegistration => 172,
            Permission::OauthClientOverride => 173,
            Permission::AiModelInteract => 174,
            Permission::Troubleshoot => 175,
            Permission::SpamFilterClassify => 176,
            Permission::SpamFilterTrain => 177,
            Permission::DavSyncCollection => 178,
            Permission::DavExpandProperty => 179,
            Permission::DavPrincipalAcl => 180,
            Permission::DavPrincipalMatch => 181,
            Permission::DavPrincipalSearchPropSet => 182,
            Permission::DavFilePropFind => 183,
            Permission::DavFilePropPatch => 184,
            Permission::DavFileGet => 185,
            Permission::DavFileMkCol => 186,
            Permission::DavFileDelete => 187,
            Permission::DavFilePut => 188,
            Permission::DavFileCopy => 189,
            Permission::DavFileMove => 190,
            Permission::DavFileLock => 191,
            Permission::DavFileAcl => 192,
            Permission::DavCardPropFind => 193,
            Permission::DavCardPropPatch => 194,
            Permission::DavCardGet => 195,
            Permission::DavCardMkCol => 196,
            Permission::DavCardDelete => 197,
            Permission::DavCardPut => 198,
            Permission::DavCardCopy => 199,
            Permission::DavCardMove => 200,
            Permission::DavCardLock => 201,
            Permission::DavCardAcl => 202,
            Permission::DavCardQuery => 203,
            Permission::DavCardMultiGet => 204,
            Permission::DavCalPropFind => 205,
            Permission::DavCalPropPatch => 206,
            Permission::DavCalGet => 207,
            Permission::DavCalMkCol => 208,
            Permission::DavCalDelete => 209,
            Permission::DavCalPut => 210,
            Permission::DavCalCopy => 211,
            Permission::DavCalMove => 212,
            Permission::DavCalLock => 213,
            Permission::DavCalAcl => 214,
            Permission::DavCalQuery => 215,
            Permission::DavCalMultiGet => 216,
            Permission::DavCalFreeBusyQuery => 217,
            Permission::CalendarAlarms => 218,
            Permission::CalendarSchedulingSend => 219,
            Permission::CalendarSchedulingReceive => 220,
        }
    }

    /// The permission with the given number.
    pub fn from_id(id: usize) -> (permission: Option<Self>)
        ensures
            permission == permission_of_id(id),
            permission is Some <==> id < Permission::COUNT,
            permission is Some ==> permission->0.spec_id() == id,
    {
        match id {
            0 => Some(Permission::Impersonate),
            1 => Some(Permission::UnlimitedRequests),
            2 => Some(Permission::UnlimitedUploads),
            3 => Some(Permission::DeleteSystemFolders),
            4 => Some(Permission::MessageQueueList),
            5 => Some(Permission::MessageQueueGet),
            6 => Some(Permission::MessageQueueUpdate),
            7 => Some(Permission::MessageQueueDelete),
            8 => Some(Permission::OutgoingReportList),
            9 => Some(Permission::OutgoingReportGet),
            10 => Some(Permission::OutgoingReportDelete),
            11 => Some(Permission::IncomingReportList),
            12 => Some(Permission::IncomingReportGet),
            13 => Some(Permission::IncomingReportDelete),
            14 => Some(Permission::SettingsList),
            15 => Some(Permission::SettingsUpdate),
            16 => Some(Permission::SettingsDelete),
            17 => Some(Permission::SettingsReload),
            18 => Some(Permission::IndividualList),
            19 => Some(Permission::IndividualGet),
            20 => Some(Permission::IndividualUpdate),
            21 => Some(Permission::IndividualDelete),
            22 => Some(Permission::IndividualCreate),
            23 => Some(Permission::GroupList),
            24 => Some(Permission::GroupGet),
            25 => Some(Permission::GroupUpdate),
            26 => Some(Permission::GroupDelete),
            27 => Some(Permission::GroupCreate),
            28 => Some(Permission::DomainList),
            29 => Some(Permission::DomainGet),
            30 => Some(Permission::DomainCreate),
            31 => Some(Permission::DomainUpdate),
            32 => Some(Permission::DomainDelete),
            33 => Some(Permission::TenantList),
            34 => Some(Permission::TenantGet),
            35 => Some(Permission::TenantCreate),
            36 => Some(Permission::TenantUpdate),
            37 => Some(Permission::TenantDelete),
            38 => Some(Permission::MailingListList),
            39 => Some(Permission::MailingListGet),
            40 => Some(Permission::MailingListCreate),
            41 => Some(Permission::MailingListUpdate),
            42 => Some(Permission::MailingListDelete),
            43 => Some(Permission::RoleList),
            44 => Some(Permission::RoleGet),
            45 => Some(Permission::RoleCreate),
            46 => Some(Permission::RoleUpdate),
            47 => Some(Permission::RoleDelete),
            48 => Some(Permission::PrincipalList),
            49 => Some(Permission::PrincipalGet),
            50 => Some(Permission::PrincipalCreate),
            51 => Some(Permission::PrincipalUpdate),
            52 => Some(Permission::PrincipalDelete),
            53 => Some(Permission::BlobFetch),
            54 => Some(Permission::PurgeBlobStore),
            55 => Some(Permission::PurgeDataStore),
            56 => Some(Permission::PurgeInMemoryStore),
            57 => Some(Permission::PurgeAccount),
            58 => Some(Permission::FtsReindex),
            59 => Some(Permission::Undelete),
            60 => Some(Permission::DkimSignatureCreate),
            61 => Some(Permission::DkimSignatureGet),
            62 => Some(Permission::SpamFilterUpdate),
            63 => Some(Permission::WebadminUpdate),
            64 => Some(Permission::LogsView),
            65 => Some(Permission::Restart),
            66 => Some(Permission::TracingList),
            67 => Some(Permission::TracingGet),
            68 => Some(Permission::TracingLive),
            69 => Some(Permission::MetricsList),
            70 => Some(Permission::MetricsLive),
            71 => Some(Permission::Authenticate),
            72 => Some(Permission::AuthenticateOauth),
            73 => Some(Permission::EmailSend),
            74 => Some(Permission::EmailReceive),
            75 => Some(Permission::ManageEncryption),
            76 => Some(Permission::ManagePasswords),
            77 => Some(Permission::JmapEmailGet),
            78 => Some(Permission::JmapMailboxGet),
            79 => Some(Permission::JmapThreadGet),
            80 => Some(Permission::JmapIdentityGet),
            81 => Some(Permission::JmapEmailSubmissionGet),
            82 => Some(Permission::JmapPushSubscriptionGet),
            83 => Some(Permission::JmapSieveScriptGet),
            84 => Some(Permission::JmapVacationResponseGet),
            85 => Some(Permission::JmapQuotaGet),
            86 => Some(Permission::JmapBlobGet),
            87 => Some(Permission::JmapEmailSet),
            88 => Some(Permission::JmapMailboxSet),
            89 => Some(Permission::JmapIdentitySet),
            90 => Some(Permission::JmapEmailSubmissionSet),
            91 => Some(Permission::JmapPushSubscriptionSet),
            92 => Some(Permission::JmapSieveScriptSet),
            93 => Some(Permission::JmapVacationResponseSet),
            94 => Some(Permission::JmapEmailChanges),
            95 => Some(Permission::JmapMailboxChanges),
            96 => Some(Permission::JmapThreadChanges),
            97 => Some(Permission::JmapIdentityChanges),
            98 => Some(Permission::JmapEmailSubmissionChanges),
            99 => Some(Permission::JmapQuotaChanges),
            100 => Some(Permission::JmapEmailCopy),
            101 => Some(Permission::JmapBlobCopy),
            102 => Some(Permission::JmapEmailImport),
            103 => Some(Permission::JmapEmailParse),
            104 => Some(Permission::JmapEmailQueryChanges),
            105 => Some(Permission::JmapMailboxQueryChanges),
            106 => Some(Permission::JmapEmailSubmissionQueryChanges),
            107 => Some(Permission::JmapSieveScriptQueryChanges),
            108 => Some(Permission::JmapQuotaQueryChanges),
            109 => Some(Permission::JmapEmailQuery),
            110 => Some(Permission::JmapMailboxQuery),
            111 => Some(Permission::JmapEmailSubmissionQuery),
            112 => Some(Permission::JmapSieveScriptQuery),
            113 => Some(Permission::JmapQuotaQuery),
            114 => Some(Permission::JmapSearchSnippet),
            115 => Some(Permission::JmapSieveScriptValidate),
            116 => Some(Permission::JmapBlobLookup),
            117 => Some(Permission::JmapBlobUpload),
            118 => Some(Permission::JmapEcho),
            119 => Some(Permission::ImapAuthenticate),
            120 => Some(Permission::ImapAclGet),
            121 => Some(Permission::ImapAclSet),
            122 => Some(Permission::ImapMyRights),
            123 => Some(Permission::ImapListRights),
            124 => Some(Permission::ImapAppend),
            125 => Some(Permission::ImapCapability),
            126 => Some(Permission::ImapId),
            127 => Some(Permission::ImapCopy),
            128 => Some(Permission::ImapMove),
            129 => Some(Permission::ImapCreate),
            130 => Some(Permission::ImapDelete),
            131 => Some(Permission::ImapEnable),
            132 => Some(Permission::ImapExpunge),
            133 => Some(Permission::ImapFetch),
            134 => Some(Permission::ImapIdle),
            135 => Some(Permission::ImapList),
            136 => Some(Permission::ImapLsub),
            137 => Some(Permission::ImapNamespace),
            138 => Some(Permission::ImapRename),
            139 => Some(Permission::ImapSearch),
            140 => Some(Permission::ImapSort),
            141 => Some(Permission::ImapSelect),
            142 => Some(Permission::ImapExamine),
            143 => Some(Permission::ImapStatus),
            144 => Some(Permission::ImapStore),
            145 => Some(Permission::ImapSubscribe),
            146 => Some(Permission::ImapThread),
            147 => Some(Permission::Pop3Authenticate),
            148 => Some(Permission::Pop3List),
            149 => Some(Permission::Pop3Uidl),
            150 => Some(Permission::Pop3Stat),
            151 => Some(Permission::Pop3Retr),
            152 => Some(Permission::Pop3Dele),
            153 => Some(Permission::SieveAuthenticate),
            154 => Some(Permission::SieveListScripts),
            155 => Some(Permission::SieveSetActive),
            156 => Some(Permission::SieveGetScript),
            157 => Some(Permission::SievePutScript),
            158 => Some(Permission::SieveDeleteScript),
            159 => Some(Permission::SieveRenameScript),
            160 => Some(Permission::SieveCheckScript),
            161 => Some(Permission::SieveHaveSpace),
            162 => Some(Permission::ApiKeyList),
            163 => Some(Permission::ApiKeyGet),
            164 => Some(Permission::ApiKeyCreate),
            165 => Some(Permission::ApiKeyUpdate),
            166 => Some(Permission::ApiKeyDelete),
            167 => Some(Permission::OauthClientList),
            168 => Some(Permission::OauthClientGet),
            169 => Some(Permission::OauthClientCreate),
            170 => Some(Permission::OauthClientUpdate),
            171 => Some(Permission::OauthClientDelete),
            172 => Some(Permission::OauthClientRegistration),
            173 => Some(Permission::OauthClientOverride),
            174 => Some(Permission::AiModelInteract),
            175 => Some(Permission::Troubleshoot),
            176 => Some(Permission::SpamFilterClassify),
            177 => Some(Permission::SpamFilterTrain),
            178 => Some(Permission::DavSyncCollection),
            179 => Some(Permission::DavExpandProperty),
            180 => Some(Permission::DavPrincipalAcl),
            181 => Some(Permission::DavPrincipalMatch),
            182 => Some(Permission::DavPrincipalSearchPropSet),
            183 => Some(Permission::DavFilePropFind),
            184 => Some(Permission::DavFilePropPatch),
            185 => Some(Permission::DavFileGet),
            186 => Some(Permission::DavFileMkCol),
            187 => Some(Permission::DavFileDelete),
            188 => Some(Permission::DavFilePut),
            189 => Some(Permission::DavFileCopy),
            190 => Some(Permission::DavFileMove),
            191 => Some(Permission::DavFileLock),
            192 => Some(Permission::DavFileAcl),
            193 => Some(Permission::DavCardPropFind),
            194 => Some(Permission::DavCardPropPatch),
            195 => Some(Permission::DavCardGet),
            196 => Some(Permission::DavCardMkCol),
            197 => Some(Permission::DavCardDelete),
            198 => Some(Permission::DavCardPut),
            199 => Some(Permission::DavCardCopy),
            200 => Some(Permission::DavCardMove),
            201 => Some(Permission::DavCardLock),
            202 => Some(Permission::DavCardAcl),
            203 => Some(Permission::DavCardQuery),
            204 => Some(Permission::DavCardMultiGet),
            205 => Some(Permission::DavCalPropFind),
            206 => Some(Permission::DavCalPropPatch),
            207 => Some(Permission::DavCalGet),
            208 => Some(Permission::DavCalMkCol),
            209 => Some(Permission::DavCalDelete),
            210 => Some(Permission::DavCalPut),
            211 => Some(Permission::DavCalCopy),
            212 => Some(Permission::DavCalMove),
            213 => Some(Permission::DavCalLock),
            214 => Some(Permission::DavCalAcl),
            215 => Some(Permission::DavCalQuery),
            216 => Some(Permission::DavCalMultiGet),
            217 => Some(Permission::DavCalFreeBusyQuery),
            218 => Some(Permission::CalendarAlarms),
            219 => Some(Permission::CalendarSchedulingSend),
            220 => Some(Permission::CalendarSchedulingReceive),
            _ => None,
        }
    }

    /// Every permission, in the order of their numbers.
    pub fn all() -> (permissions: Vec<Permission>)
        ensures
            permissions@.len() == Permission::COUNT,
            forall|i: int|
                0 <= i < permissions@.len() ==> permission_of_id(i as usize) == Some(
                    #[trigger] permissions@[i],
                ),
    {
        let mut permissions: Vec<Permission> = Vec::new();
        let mut id: usize = 0;
        while id < Permission::COUNT
            invariant
                id <= Permission::COUNT,
                permissions@.len() == id,
                forall|i: int|
                    0 <= i < id ==> permission_of_id(i as usize) == Some(
                        #[trigger] permissions@[i],
                    ),
            decreases Permission::COUNT - id,
        {
            if let Some(permission) = Permission::from_id(id) {
                permissions.push(permission);
            }
            id += 1;
        }
        permissions
    }

    /// Whether an account needs the permission for its own mail, calendars,
    /// contacts and files.
    #[verifier::when_used_as_spec(spec_is_user_permission)]
    pub fn is_user_permission(&self) -> (r: bool)
        ensures
            r == self.spec_is_user_permission(),
    {
        match self {
            Permission::Authenticate
            | Permission::AuthenticateOauth
            | Permission::EmailSend
            | Permission::EmailReceive
            | Permission::ManageEncryption
            | Permission::ManagePasswords
            | Permission::JmapEmailGet
            | Permission::JmapMailboxGet
            | Permission::JmapThreadGet
            | Permission::JmapIdentityGet
            | Permission::JmapEmailSubmissionGet
            | Permission::JmapPushSubscriptionGet
            | Permission::JmapSieveScriptGet
            | Permission::JmapVacationResponseGet
            | Permission::JmapQuotaGet
            | Permission::JmapBlobGet
            | Permission::JmapEmailSet
            | Permission::JmapMailboxSet
            | Permission::JmapIdentitySet
            | Permission::JmapEmailSubmissionSet
            | Permission::JmapPushSubscriptionSet
            | Permission::JmapSieveScriptSet
            | Permission::JmapVacationResponseSet
            | Permission::JmapEmailChanges
            | Permission::JmapMailboxChanges
            | Permission::JmapThreadChanges
            | Permission::JmapIdentityChanges
            | Permission::JmapEmailSubmissionChanges
            | Permission::JmapQuotaChanges
            | Permission::JmapEmailCopy
            | Permission::JmapBlobCopy
            | Permission::JmapEmailImport
            | Permission::JmapEmailParse
            | Permission::JmapEmailQueryChanges
            | Permission::JmapMailboxQueryChanges
            | Permission::JmapEmailSubmissionQueryChanges
            | Permission::JmapSieveScriptQueryChanges
            | Permission::JmapQuotaQueryChanges
            | Permission::JmapEmailQuery
            | Permission::JmapMailboxQuery
            | Permission::JmapEmailSubmissionQuery
            | Permission::JmapSieveScriptQuery
            | Permission::JmapQuotaQuery
            | Permission::JmapSearchSnippet
            | Permission::JmapSieveScriptValidate
            | Permission::JmapBlobLookup
            | Permission::JmapBlobUpload
            | Permission::JmapEcho
            | Permission::ImapAuthenticate
            | Permission::ImapAclGet
            | Permission::ImapAclSet
            | Permission::ImapMyRights
            | Permission::ImapListRights
            | Permission::ImapAppend
            | Permission::ImapCapability
            | Permission::ImapId
            | Permission::ImapCopy
            | Permission::ImapMove
            | Permission::ImapCreate
            | Permission::ImapDelete
            | Permission::ImapEnable
            | Permission::ImapExpunge
            | Permission::ImapFetch
            | Permission::ImapIdle
            | Permission::ImapList
            | Permission::ImapLsub
            | Permission::ImapNamespace
            | Permission::ImapRename
            | Permission::ImapSearch
            | Permission::ImapSort
            | Permission::ImapSelect
            | Permission::ImapExamine
            | Permission::ImapStatus
            | Permission::ImapStore
            | Permission::ImapSubscribe
            | Permission::ImapThread
            | Permission::Pop3Authenticate
            | Permission::Pop3List
            | Permission::Pop3Uidl
            | Permission::Pop3Stat
            | Permission::Pop3Retr
            | Permission::Pop3Dele
            | Permission::SieveAuthenticate
            | Permission::SieveListScripts
            | Permission::SieveSetActive
            | Permission::SieveGetScript
            | Permission::SievePutScript
            | Permission::SieveDeleteScript
            | Permission::SieveRenameScript
            | Permission::SieveCheckScript
            | Permission::SieveHaveSpace
            | Permission::SpamFilterClassify
            | Permission::SpamFilterTrain
            | Permission::DavSyncCollection
            | Permission::DavExpandProperty
            | Permission::DavPrincipalAcl
            | Permission::DavPrincipalMatch
            | Permission::DavPrincipalSearchPropSet
            | Permission::DavFilePropFind
            | Permission::DavFilePropPatch
            | Permission::DavFileGet
            | Permission::DavFileMkCol
            | Permission::DavFileDelete
            | Permission::DavFilePut
            | Permission::DavFileCopy
            | Permission::DavFileMove
            | Permission::DavFileLock
            | Permission::DavFileAcl
            | Permission::DavCardPropFind
            | Permission::DavCardPropPatch
            | Permission::DavCardGet
            | Permission::DavCardMkCol
            | Permission::DavCardDelete
            | Permission::DavCardPut
            | Permission::DavCardCopy
            | Permission::DavCardMove
            | Permission::DavCardLock
            | Permission::DavCardAcl
            | Permission::DavCardQuery
            | Permission::DavCardMultiGet
            | Permission::DavCalPropFind
            | Permission::DavCalPropPatch
            | Permission::DavCalGet
            | Permission::DavCalMkCol
            | Permission::DavCalDelete
            | Permission::DavCalPut
            | Permission::DavCalCopy
            | Permission::DavCalMove
            | Permission::DavCalLock
            | Permission::DavCalAcl
            | Permission::DavCalQuery
            | Permission::DavCalMultiGet
            | Permission::DavCalFreeBusyQuery
            | Permission::CalendarAlarms
            | Permission::CalendarSchedulingSend
            | Permission::CalendarSchedulingReceive => true,
            _ => false,
        }
    }

    /// Whether the administrator of a tenant may hold the permission. This
    /// edition has no tenants, so none is.
    pub fn is_tenant_admin_permission(&self) -> (r: bool)
        ensures
            !r,
    {
        false
    }
}

/// Every permission comes back from its number.
pub proof fn lemma_permission_round_trip(permission: Permission)
    ensures
        permission_of_id(permission.spec_id()) == Some(permission),
        permission.spec_id() < Permission::COUNT,
{
}

} // verus!
