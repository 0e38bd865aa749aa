//! The closed catalog of known platform permissions.
//!
//! Each capability has one identity; equality and ordering go by that
//! identity alone, never by the associated text.

use vstd::prelude::*;

use crate::strutil::str_eq;

verus! {

/// A platform capability from the closed catalog.
#[derive(Clone, Copy, PartialEq, Eq, Structural, Debug)]
pub enum Permission {
    AndroidPermissionAccessAllExternalStorage,
    AndroidPermissionAccessCoarseLocation,
    AndroidPermissionAccessFineLocation,
    AndroidPermissionAccessNetworkState,
    AndroidPermissionAccessWifiState,
    AndroidPermissionBluetooth,
    AndroidPermissionCallPhone,
    AndroidPermissionCamera,
    AndroidPermissionGetAccounts,
    AndroidPermissionInternet,
    AndroidPermissionNfc,
    AndroidPermissionReadCalendar,
    AndroidPermissionReadCallLog,
    AndroidPermissionReadContacts,
    AndroidPermissionReadExternalStorage,
    AndroidPermissionReadPhoneState,
    AndroidPermissionReadSms,
    AndroidPermissionReceiveBootCompleted,
    AndroidPermissionReceiveSms,
    AndroidPermissionRecordAudio,
    AndroidPermissionSendSms,
    AndroidPermissionUseCredentials,
    AndroidPermissionVibrate,
    AndroidPermissionWriteCalendar,
    AndroidPermissionWriteContacts,
    AndroidPermissionWriteExternalStorage,
}

impl Permission {
    /// Position of the capability in the catalog's fixed order.
    pub open spec fn ordinal(self) -> int {
        match self {
            Permission::AndroidPermissionAccessAllExternalStorage => 0,
            Permission::AndroidPermissionAccessCoarseLocation => 1,
            Permission::AndroidPermissionAccessFineLocation => 2,
            Permission::AndroidPermissionAccessNetworkState => 3,
            Permission::AndroidPermissionAccessWifiState => 4,
            Permission::AndroidPermissionBluetooth => 5,
            Permission::AndroidPermissionCallPhone => 6,
            Permission::AndroidPermissionCamera => 7,
            Permission::AndroidPermissionGetAccounts => 8,
            Permission::AndroidPermissionInternet => 9,
            Permission::AndroidPermissionNfc => 10,
            Permission::AndroidPermissionReadCalendar => 11,
            Permission::AndroidPermissionReadCallLog => 12,
            Permission::AndroidPermissionReadContacts => 13,
            Permission::AndroidPermissionReadExternalStorage => 14,
            Permission::AndroidPermissionReadPhoneState => 15,
            Permission::AndroidPermissionReadSms => 16,
            Permission::AndroidPermissionReceiveBootCompleted => 17,
            Permission::AndroidPermissionReceiveSms => 18,
            Permission::AndroidPermissionRecordAudio => 19,
            Permission::AndroidPermissionSendSms => 20,
            Permission::AndroidPermissionUseCredentials => 21,
            Permission::AndroidPermissionVibrate => 22,
            Permission::AndroidPermissionWriteCalendar => 23,
            Permission::AndroidPermissionWriteContacts => 24,
            Permission::AndroidPermissionWriteExternalStorage => 25,
        }
    }

    /// Position of the capability in the catalog's fixed order, as a machine
    /// integer.
    pub fn index(&self) -> (r: u8)
        ensures
            r as int == self.ordinal(),
    {
        match self {
            Permission::AndroidPermissionAccessAllExternalStorage => 0,
            Permission::AndroidPermissionAccessCoarseLocation => 1,
            Permission::AndroidPermissionAccessFineLocation => 2,
            Permission::AndroidPermissionAccessNetworkState => 3,
            Permission::AndroidPermissionAccessWifiState => 4,
            Permission::AndroidPermissionBluetooth => 5,
            Permission::AndroidPermissionCallPhone => 6,
            Permission::AndroidPermissionCamera => 7,
            Permission::AndroidPermissionGetAccounts => 8,
            Permission::AndroidPermissionInternet => 9,
            Permission::AndroidPermissionNfc => 10,
            Permission::AndroidPermissionReadCalendar => 11,
            Permission::AndroidPermissionReadCallLog => 12,
            Permission::AndroidPermissionReadContacts => 13,
            Permission::AndroidPermissionReadExternalStorage => 14,
            Permission::AndroidPermissionReadPhoneState => 15,
            Permission::AndroidPermissionReadSms => 16,
            Permission::AndroidPermissionReceiveBootCompleted => 17,
            Permission::AndroidPermissionReceiveSms => 18,
            Permission::AndroidPermissionRecordAudio => 19,
            Permission::AndroidPermissionSendSms => 20,
            Permission::AndroidPermissionUseCredentials => 21,
            Permission::AndroidPermissionVibrate => 22,
            Permission::AndroidPermissionWriteCalendar => 23,
            Permission::AndroidPermissionWriteContacts => 24,
            Permission::AndroidPermissionWriteExternalStorage => 25,
        }
    }

    /// Two capabilities with the same catalog position are the same
    /// capability.
    pub proof fn lemma_ordinal_injective(a: Permission, b: Permission)
        requires
            a.ordinal() == b.ordinal(),
        ensures
            a == b,
    {
    }

    /// The canonical name of each capability.
    pub open spec fn spec_name(self) -> Seq<char> {
        match self {
            Permission::AndroidPermissionAccessAllExternalStorage => "android.permission.ACCESS_ALL_EXTERNAL_STORAGE"@,
            Permission::AndroidPermissionAccessCoarseLocation => "android.permission.ACCESS_COARSE_LOCATION"@,
            Permission::AndroidPermissionAccessFineLocation => "android.permission.ACCESS_FINE_LOCATION"@,
            Permission::AndroidPermissionAccessNetworkState => "android.permission.ACCESS_NETWORK_STATE"@,
            Permission::AndroidPermissionAccessWifiState => "android.permission.ACCESS_WIFI_STATE"@,
            Permission::AndroidPermissionBluetooth => "android.permission.BLUETOOTH"@,
            Permission::AndroidPermissionCallPhone => "android.permission.CALL_PHONE"@,
            Permission::AndroidPermissionCamera => "android.permission.CAMERA"@,
            Permission::AndroidPermissionGetAccounts => "android.permission.GET_ACCOUNTS"@,
            Permission::AndroidPermissionInternet => "android.permission.INTERNET"@,
            Permission::AndroidPermissionNfc => "android.permission.NFC"@,
            Permission::AndroidPermissionReadCalendar => "android.permission.READ_CALENDAR"@,
            Permission::AndroidPermissionReadCallLog => "android.permission.READ_CALL_LOG"@,
            Permission::AndroidPermissionReadContacts => "android.permission.READ_CONTACTS"@,
            Permission::AndroidPermissionReadExternalStorage => "android.permission.READ_EXTERNAL_STORAGE"@,
            Permission::AndroidPermissionReadPhoneState => "android.permission.READ_PHONE_STATE"@,
            Permission::AndroidPermissionReadSms => "android.permission.READ_SMS"@,
            Permission::AndroidPermissionReceiveBootCompleted => "android.permission.RECEIVE_BOOT_COMPLETED"@,
            Permission::AndroidPermissionReceiveSms => "android.permission.RECEIVE_SMS"@,
            Permission::AndroidPermissionRecordAudio => "android.permission.RECORD_AUDIO"@,
            Permission::AndroidPermissionSendSms => "android.permission.SEND_SMS"@,
            Permission::AndroidPermissionUseCredentials => "android.permission.USE_CREDENTIALS"@,
            Permission::AndroidPermissionVibrate => "android.permission.VIBRATE"@,
            Permission::AndroidPermissionWriteCalendar => "android.permission.WRITE_CALENDAR"@,
            Permission::AndroidPermissionWriteContacts => "android.permission.WRITE_CONTACTS"@,
            Permission::AndroidPermissionWriteExternalStorage => "android.permission.WRITE_EXTERNAL_STORAGE"@,
        }
    }

    /// The canonical name of each capability.
    pub fn name(&self) -> (r: String)
        ensures
            r@ == self.spec_name(),
    {
        match self {
            Permission::AndroidPermissionAccessAllExternalStorage => String::from_str("android.permission.ACCESS_ALL_EXTERNAL_STORAGE"),
            Permission::AndroidPermissionAccessCoarseLocation => String::from_str("android.permission.ACCESS_COARSE_LOCATION"),
            Permission::AndroidPermissionAccessFineLocation => String::from_str("android.permission.ACCESS_FINE_LOCATION"),
            Permission::AndroidPermissionAccessNetworkState => String::from_str("android.permission.ACCESS_NETWORK_STATE"),
            Permission::AndroidPermissionAccessWifiState => String::from_str("android.permission.ACCESS_WIFI_STATE"),
            Permission::AndroidPermissionBluetooth => String::from_str("android.permission.BLUETOOTH"),
            Permission::AndroidPermissionCallPhone => String::from_str("android.permission.CALL_PHONE"),
            Permission::AndroidPermissionCamera => String::from_str("android.permission.CAMERA"),
            Permission::AndroidPermissionGetAccounts => String::from_str("android.permission.GET_ACCOUNTS"),
            Permission::AndroidPermissionInternet => String::from_str("android.permission.INTERNET"),
            Permission::AndroidPermissionNfc => String::from_str("android.permission.NFC"),
            Permission::AndroidPermissionReadCalendar => String::from_str("android.permission.READ_CALENDAR"),
            Permission::AndroidPermissionReadCallLog => String::from_str("android.permission.READ_CALL_LOG"),
            Permission::AndroidPermissionReadContacts => String::from_str("android.permission.READ_CONTACTS"),
            Permission::AndroidPermissionReadExternalStorage => String::from_str("android.permission.READ_EXTERNAL_STORAGE"),
            Permission::AndroidPermissionReadPhoneState => String::from_str("android.permission.READ_PHONE_STATE"),
            Permission::AndroidPermissionReadSms => String::from_str("android.permission.READ_SMS"),
            Permission::AndroidPermissionReceiveBootCompleted => String::from_str("android.permission.RECEIVE_BOOT_COMPLETED"),
            Permission::AndroidPermissionReceiveSms => String::from_str("android.permission.RECEIVE_SMS"),
            Permission::AndroidPermissionRecordAudio => String::from_str("android.permission.RECORD_AUDIO"),
            Permission::AndroidPermissionSendSms => String::from_str("android.permission.SEND_SMS"),
            Permission::AndroidPermissionUseCredentials => String::from_str("android.permission.USE_CREDENTIALS"),
            Permission::AndroidPermissionVibrate => String::from_str("android.permission.VIBRATE"),
            Permission::AndroidPermissionWriteCalendar => String::from_str("android.permission.WRITE_CALENDAR"),
            Permission::AndroidPermissionWriteContacts => String::from_str("android.permission.WRITE_CONTACTS"),
            Permission::AndroidPermissionWriteExternalStorage => String::from_str("android.permission.WRITE_EXTERNAL_STORAGE"),
        }
    }

    /// How a permission name resolves against the catalog: the canonical
    /// name of a capability, and nothing else.
    pub open spec fn spec_parse(s: Seq<char>) -> Option<Permission> {
        if s == "android.permission.ACCESS_ALL_EXTERNAL_STORAGE"@ {
            Some(Permission::AndroidPermissionAccessAllExternalStorage)
        } else if s == "android.permission.ACCESS_COARSE_LOCATION"@ {
            Some(Permission::AndroidPermissionAccessCoarseLocation)
        } else if s == "android.permission.ACCESS_FINE_LOCATION"@ {
            Some(Permission::AndroidPermissionAccessFineLocation)
        } else if s == "android.permission.ACCESS_NETWORK_STATE"@ {
            Some(Permission::AndroidPermissionAccessNetworkState)
        } else if s == "android.permission.ACCESS_WIFI_STATE"@ {
            Some(Permission::AndroidPermissionAccessWifiState)
        } else if s == "android.permission.BLUETOOTH"@ {
            Some(Permission::AndroidPermissionBluetooth)
        } else if s == "android.permission.CALL_PHONE"@ {
            Some(Permission::AndroidPermissionCallPhone)
        } else if s == "android.permission.CAMERA"@ {
            Some(Permission::AndroidPermissionCamera)
        } else if s == "android.permission.GET_ACCOUNTS"@ {
            Some(Permission::AndroidPermissionGetAccounts)
        } else if s == "android.permission.INTERNET"@ {
            Some(Permission::AndroidPermissionInternet)
        } else if s == "android.permission.NFC"@ {
            Some(Permission::AndroidPermissionNfc)
        } else if s == "android.permission.READ_CALENDAR"@ {
            Some(Permission::AndroidPermissionReadCalendar)
        } else if s == "android.permission.READ_CALL_LOG"@ {
            Some(Permission::AndroidPermissionReadCallLog)
        } else if s == "android.permission.READ_CONTACTS"@ {
            Some(Permission::AndroidPermissionReadContacts)
        } else if s == "android.permission.READ_EXTERNAL_STORAGE"@ {
            Some(Permission::AndroidPermissionReadExternalStorage)
        } else if s == "android.permission.READ_PHONE_STATE"@ {
            Some(Permission::AndroidPermissionReadPhoneState)
        } else if s == "android.permission.READ_SMS"@ {
            Some(Permission::AndroidPermissionReadSms)
        } else if s == "android.permission.RECEIVE_BOOT_COMPLETED"@ {
            Some(Permission::AndroidPermissionReceiveBootCompleted)
        } else if s == "android.permission.RECEIVE_SMS"@ {
            Some(Permission::AndroidPermissionReceiveSms)
        } else if s == "android.permission.RECORD_AUDIO"@ {
            Some(Permission::AndroidPermissionRecordAudio)
        } else if s == "android.permission.SEND_SMS"@ {
            Some(Permission::AndroidPermissionSendSms)
        } else if s == "android.permission.USE_CREDENTIALS"@ {
            Some(Permission::AndroidPermissionUseCredentials)
        } else if s == "android.permission.VIBRATE"@ {
            Some(Permission::AndroidPermissionVibrate)
        } else if s == "android.permission.WRITE_CALENDAR"@ {
            Some(Permission::AndroidPermissionWriteCalendar)
        } else if s == "android.permission.WRITE_CONTACTS"@ {
            Some(Permission::AndroidPermissionWriteContacts)
        } else if s == "android.permission.WRITE_EXTERNAL_STORAGE"@ {
            Some(Permission::AndroidPermissionWriteExternalStorage)
        } else {
            None
        }
    }

    /// Looks a permission name up in the catalog; an unknown name is refused,
    /// so the caller can fall back to the unknown-permission policy.
    pub fn from_str(s: &str) -> (r: Option<Permission>)
        ensures
            r == Self::spec_parse(s@),
    {
        if str_eq(s, "android.permission.ACCESS_ALL_EXTERNAL_STORAGE") {
            Some(Permission::AndroidPermissionAccessAllExternalStorage)
        } else if str_eq(s, "android.permission.ACCESS_COARSE_LOCATION") {
            Some(Permission::AndroidPermissionAccessCoarseLocation)
        } else if str_eq(s, "android.permission.ACCESS_FINE_LOCATION") {
            Some(Permission::AndroidPermissionAccessFineLocation)
        } else if str_eq(s, "android.permission.ACCESS_NETWORK_STATE") {
            Some(Permission::AndroidPermissionAccessNetworkState)
        } else if str_eq(s, "android.permission.ACCESS_WIFI_STATE") {
            Some(Permission::AndroidPermissionAccessWifiState)
        } else if str_eq(s, "android.permission.BLUETOOTH") {
            Some(Permission::AndroidPermissionBluetooth)
        } else if str_eq(s, "android.permission.CALL_PHONE") {
            Some(Permission::AndroidPermissionCallPhone)
        } else if str_eq(s, "android.permission.CAMERA") {
            Some(Permission::AndroidPermissionCamera)
        } else if str_eq(s, "android.permission.GET_ACCOUNTS") {
            Some(Permission::AndroidPermissionGetAccounts)
        } else if str_eq(s, "android.permission.INTERNET") {
            Some(Permission::AndroidPermissionInternet)
        } else if str_eq(s, "android.permission.NFC") {
            Some(Permission::AndroidPermissionNfc)
        } else if str_eq(s, "android.permission.READ_CALENDAR") {
            Some(Permission::AndroidPermissionReadCalendar)
        } else if str_eq(s, "android.permission.READ_CALL_LOG") {
            Some(Permission::AndroidPermissionReadCallLog)
        } else if str_eq(s, "android.permission.READ_CONTACTS") {
            Some(Permission::AndroidPermissionReadContacts)
        } else if str_eq(s, "android.permission.READ_EXTERNAL_STORAGE") {
            Some(Permission::AndroidPermissionReadExternalStorage)
        } else if str_eq(s, "android.permission.READ_PHONE_STATE") {
            Some(Permission::AndroidPermissionReadPhoneState)
        } else if str_eq(s, "android.permission.READ_SMS") {
            Some(Permission::AndroidPermissionReadSms)
        } else if str_eq(s, "android.permission.RECEIVE_BOOT_COMPLETED") {
            Some(Permission::AndroidPermissionReceiveBootCompleted)
        } else if str_eq(s, "android.permission.RECEIVE_SMS") {
            Some(Permission::AndroidPermissionReceiveSms)
        } else if str_eq(s, "android.permission.RECORD_AUDIO") {
            Some(Permission::AndroidPermissionRecordAudio)
        } else if str_eq(s, "android.permission.SEND_SMS") {
            Some(Permission::AndroidPermissionSendSms)
        } else if str_eq(s, "android.permission.USE_CREDENTIALS") {
            Some(Permission::AndroidPermissionUseCredentials)
        } else if str_eq(s, "android.permission.VIBRATE") {
            Some(Permission::AndroidPermissionVibrate)
        } else if str_eq(s, "android.permission.WRITE_CALENDAR") {
            Some(Permission::AndroidPermissionWriteCalendar)
        } else if str_eq(s, "android.permission.WRITE_CONTACTS") {
            Some(Permission::AndroidPermissionWriteContacts)
        } else if str_eq(s, "android.permission.WRITE_EXTERNAL_STORAGE") {
            Some(Permission::AndroidPermissionWriteExternalStorage)
        } else {
            None
        }
    }
}

} // verus!
