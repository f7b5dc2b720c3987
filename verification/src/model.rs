use vstd::prelude::*;
use vstd::std_specs::convert::FromSpecImpl;
use vstd::string::*;

verus! {

/// What can be sent to the gateway as the body of a call.
pub trait ParamsTrait {
    /// The JSON text that stands for the value.
    spec fn json(&self) -> Seq<char>;

    fn to_json(&self) -> (res: String)
        ensures
            res@ == self.json(),
    ;
}

/// The currencies an amount can be stated in.
#[derive(Clone, Copy, Debug, PartialEq, Eq, Structural)]
pub enum Currency {
    CNY,
}

impl Currency {
    pub open spec fn text(self) -> Seq<char> {
        "CNY"@
    }

    pub fn to_string(&self) -> (res: String)
        ensures
            res@ == self.text(),
    {
        "CNY".to_owned()
    }
}

#[derive(Debug, Clone)]
pub struct AmountInfo {
    /// Total amount of the order, in fen.
    pub total: i32,
}

impl From<i32> for AmountInfo {
    fn from(value: i32) -> (res: Self) {
        Self { total: value }
    }
}

impl FromSpecImpl<i32> for AmountInfo {
    open spec fn obeys_from_spec() -> bool {
        true
    }

    open spec fn from_spec(value: i32) -> Self {
        AmountInfo { total: value }
    }
}

#[derive(Debug, Clone)]
pub struct PayerInfo {
    /// The payer's identifier under the merchant's app id.
    pub openid: String,
}

/// A payer is made from an open id. No specification can write a `String`
/// down, so what the payer holds is stated on `from` itself.
impl<'a> From<&'a str> for PayerInfo {
    fn from(value: &'a str) -> (res: Self)
        ensures
            res.openid@ == value@,
    {
        Self { openid: value.to_owned() }
    }
}

impl<'a> FromSpecImpl<&'a str> for PayerInfo {
    open spec fn obeys_from_spec() -> bool {
        false
    }

    open spec fn from_spec(value: &'a str) -> Self {
        arbitrary()
    }
}

#[derive(Debug, Clone)]
pub struct GoodsDetail {
    /// The merchant's own code of the item.
    pub merchant_goods_id: String,
    /// How many of the item were bought.
    pub quantity: i32,
    /// Price of one item after discounts, in fen.
    pub unit_price: i32,
    /// The gateway's unified code of the item.
    pub wechatpay_goods_id: Option<String>,
    pub goods_name: Option<String>,
}

#[derive(Debug, Clone)]
pub struct OrderDetail {
    /// Amount of the whole receipt where it is paid in parts, in fen.
    pub cost_price: Option<i32>,
    /// The merchant's receipt number.
    pub invoice_id: Option<String>,
    /// Between 1 and 6000 items.
    pub goods_detail: Vec<GoodsDetail>,
}

#[derive(Debug, Clone)]
pub struct StoreInfo {
    /// The merchant's own number of the store.
    pub id: String,
    pub name: Option<String>,
    pub area_code: Option<String>,
    pub address: Option<String>,
}

#[derive(Debug, Clone)]
pub struct SceneInfo {
    /// The payer's address, IPv4 or IPv6.
    pub payer_client_ip: String,
    /// Store number or cash register id.
    pub device_id: Option<String>,
    pub store_info: Option<StoreInfo>,
}

/// The kinds of H5 payment scene.
#[derive(Clone, Copy, Debug, PartialEq, Eq, Structural)]
pub enum H5Type {
    Ios,
    Android,
    Wap,
}

impl H5Type {
    /// The name the gateway knows the scene by.
    pub open spec fn text(self) -> Seq<char> {
        match self {
            H5Type::Ios => "iOS"@,
            H5Type::Android => "Android"@,
            H5Type::Wap => "Wap"@,
        }
    }

    pub fn to_string(&self) -> (res: String)
        ensures
            res@ == self.text(),
    {
        match self {
            H5Type::Ios => "iOS".to_owned(),
            H5Type::Android => "Android".to_owned(),
            H5Type::Wap => "Wap".to_owned(),
        }
    }
}

#[derive(Debug, Clone)]
pub struct H5Info {
    /// The scene's kind; sent under the name `type`.
    pub h5_type: String,
    pub app_name: Option<String>,
    pub app_url: Option<String>,
    /// Bundle id on iOS.
    pub bundle_id: Option<String>,
    /// Package name on Android.
    pub package_name: Option<String>,
}

#[derive(Debug, Clone)]
pub struct H5SceneInfo {
    /// The payer's address, IPv4 or IPv6.
    pub payer_client_ip: String,
    pub h5_info: H5Info,
    /// Store number or cash register id.
    pub device_id: Option<String>,
    pub store_info: Option<StoreInfo>,
}

impl H5SceneInfo {
    /// The scene of a payment from a mobile web page.
    pub fn new(payer_client_ip: &str, app_name: &str, app_url: &str) -> (res: Self)
        ensures
            res.payer_client_ip@ == payer_client_ip@,
            res.h5_info.h5_type@ == H5Type::Wap.text(),
            res.h5_info.app_name matches Some(name) && name@ == app_name@,
            res.h5_info.app_url matches Some(url) && url@ == app_url@,
            res.h5_info.bundle_id is None,
            res.h5_info.package_name is None,
            res.device_id is None,
            res.store_info is None,
    {
        Self {
            payer_client_ip: payer_client_ip.to_owned(),
            h5_info: H5Info {
                h5_type: H5Type::Wap.to_string(),
                app_name: Some(app_name.to_owned()),
                app_url: Some(app_url.to_owned()),
                bundle_id: None,
                package_name: None,
            },
            device_id: None,
            store_info: None,
        }
    }
}

#[derive(Debug, Clone)]
pub struct JsapiParams {
    pub appid: String,
    /// The merchant's number.
    pub mchid: String,
    pub description: String,
    /// The merchant's own order number, unique under the merchant's number.
    pub out_trade_no: String,
    pub amount: AmountInfo,
    pub payer: PayerInfo,
    /// Handed back unchanged in queries and notifications.
    pub attach: Option<String>,
    pub detail: Option<OrderDetail>,
    /// When the order lapses, in RFC 3339 form.
    pub time_expire: Option<String>,
    pub scene_info: Option<SceneInfo>,
}

impl JsapiParams {
    pub fn new(
        appid: &str,
        mchid: &str,
        description: &str,
        out_trade_no: &str,
        amount: AmountInfo,
        payer: PayerInfo,
    ) -> (res: Self)
        ensures
            res.appid@ == appid@,
            res.mchid@ == mchid@,
            res.description@ == description@,
            res.out_trade_no@ == out_trade_no@,
            res.amount == amount,
            res.payer == payer,
            res.attach is None,
            res.detail is None,
            res.time_expire is None,
            res.scene_info is None,
    {
        Self {
            appid: appid.to_owned(),
            mchid: mchid.to_owned(),
            description: description.to_owned(),
            out_trade_no: out_trade_no.to_owned(),
            amount,
            payer,
            time_expire: None,
            attach: None,
            detail: None,
            scene_info: None,
        }
    }
}

#[derive(Debug, Clone)]
pub struct MicroParams {
    pub appid: String,
    /// The merchant's number.
    pub mchid: String,
    pub description: String,
    /// The merchant's own order number, unique under the merchant's number.
    pub out_trade_no: String,
    pub amount: AmountInfo,
    pub payer: PayerInfo,
    /// Handed back unchanged in queries and notifications.
    pub attach: Option<String>,
    pub detail: Option<OrderDetail>,
    /// When the order lapses, in RFC 3339 form.
    pub time_expire: Option<String>,
    pub scene_info: Option<SceneInfo>,
}

impl MicroParams {
    pub fn new(
        appid: &str,
        mchid: &str,
        description: &str,
        out_trade_no: &str,
        amount: AmountInfo,
        payer: PayerInfo,
    ) -> (res: Self)
        ensures
            res.appid@ == appid@,
            res.mchid@ == mchid@,
            res.description@ == description@,
            res.out_trade_no@ == out_trade_no@,
            res.amount == amount,
            res.payer == payer,
            res.attach is None,
            res.detail is None,
            res.time_expire is None,
            res.scene_info is None,
    {
        Self {
            appid: appid.to_owned(),
            mchid: mchid.to_owned(),
            description: description.to_owned(),
            out_trade_no: out_trade_no.to_owned(),
            amount,
            payer,
            time_expire: None,
            attach: None,
            detail: None,
            scene_info: None,
        }
    }
}

#[derive(Debug, Clone)]
pub struct SettleInfo {
    /// Whether the payment is to be shared out.
    pub profit_sharing: Option<bool>,
}

#[derive(Debug, Clone)]
pub struct NativeParams {
    pub appid: String,
    /// The merchant's number.
    pub mchid: String,
    pub description: String,
    /// Where the gateway sends the result; reachable from outside, without
    /// query parameters.
    pub notify_url: String,
    /// The merchant's own order number, unique under the merchant's number.
    pub out_trade_no: String,
    pub amount: AmountInfo,
    /// When the order lapses, in RFC 3339 form.
    pub time_expire: Option<String>,
    /// Handed back unchanged in queries and notifications.
    pub attach: Option<String>,
    /// Mark for vouchers and instant discounts.
    pub goods_tag: Option<String>,
    /// Whether the payer is offered an electronic invoice.
    pub support_fapiao: Option<bool>,
    pub scene_info: Option<SceneInfo>,
    pub settle_info: Option<SettleInfo>,
}

impl NativeParams {
    pub fn new(
        appid: &str,
        mchid: &str,
        notify_url: &str,
        description: &str,
        out_trade_no: &str,
        amount: AmountInfo,
    ) -> (res: Self)
        ensures
            res.appid@ == appid@,
            res.mchid@ == mchid@,
            res.notify_url@ == notify_url@,
            res.description@ == description@,
            res.out_trade_no@ == out_trade_no@,
            res.amount == amount,
            res.time_expire is None,
            res.attach is None,
            res.goods_tag is None,
            res.support_fapiao is None,
            res.scene_info is None,
            res.settle_info is None,
    {
        Self {
            appid: appid.to_owned(),
            mchid: mchid.to_owned(),
            notify_url: notify_url.to_owned(),
            description: description.to_owned(),
            out_trade_no: out_trade_no.to_owned(),
            amount,
            time_expire: None,
            attach: None,
            goods_tag: None,
            support_fapiao: None,
            scene_info: None,
            settle_info: None,
        }
    }
}

#[derive(Debug, Clone)]
pub struct AppParams {
    pub appid: String,
    /// The merchant's number.
    pub mchid: String,
    pub description: String,
    /// Where the gateway sends the result; reachable from outside, without
    /// query parameters.
    pub notify_url: String,
    /// The merchant's own order number, unique under the merchant's number.
    pub out_trade_no: String,
    pub amount: AmountInfo,
    /// When the order lapses, in RFC 3339 form.
    pub time_expire: Option<String>,
    /// Handed back unchanged in queries and notifications.
    pub attach: Option<String>,
    /// Mark for vouchers and instant discounts.
    pub goods_tag: Option<String>,
    /// Whether the payer is offered an electronic invoice.
    pub support_fapiao: Option<bool>,
    pub detail: Option<OrderDetail>,
    pub scene_info: Option<SceneInfo>,
    pub settle_info: Option<SettleInfo>,
}

impl AppParams {
    pub fn new(
        appid: &str,
        mchid: &str,
        notify_url: &str,
        description: &str,
        out_trade_no: &str,
        amount: AmountInfo,
    ) -> (res: Self)
        ensures
            res.appid@ == appid@,
            res.mchid@ == mchid@,
            res.notify_url@ == notify_url@,
            res.description@ == description@,
            res.out_trade_no@ == out_trade_no@,
            res.amount == amount,
            res.time_expire is None,
            res.attach is None,
            res.goods_tag is None,
            res.support_fapiao is None,
            res.detail is None,
            res.scene_info is None,
            res.settle_info is None,
    {
        Self {
            appid: appid.to_owned(),
            mchid: mchid.to_owned(),
            description: description.to_owned(),
            notify_url: notify_url.to_owned(),
            out_trade_no: out_trade_no.to_owned(),
            amount,
            time_expire: None,
            attach: None,
            goods_tag: None,
            support_fapiao: None,
            detail: None,
            scene_info: None,
            settle_info: None,
        }
    }
}

#[derive(Debug, Clone)]
pub struct H5Params {
    pub appid: String,
    /// The merchant's number.
    pub mchid: String,
    pub description: String,
    /// Where the gateway sends the result; reachable from outside, without
    /// query parameters.
    pub notify_url: String,
    /// The merchant's own order number, unique under the merchant's number.
    pub out_trade_no: String,
    pub amount: AmountInfo,
    /// When the order lapses, in RFC 3339 form.
    pub time_expire: Option<String>,
    /// Handed back unchanged in queries and notifications.
    pub attach: Option<String>,
    /// Mark for vouchers and instant discounts.
    pub goods_tag: Option<String>,
    /// Whether the payer is offered an electronic invoice.
    pub support_fapiao: Option<bool>,
    pub scene_info: H5SceneInfo,
    pub settle_info: Option<SettleInfo>,
}

impl H5Params {
    pub fn new(
        appid: &str,
        mchid: &str,
        notify_url: &str,
        description: &str,
        out_trade_no: &str,
        amount: AmountInfo,
        scene_info: H5SceneInfo,
    ) -> (res: Self)
        ensures
            res.appid@ == appid@,
            res.mchid@ == mchid@,
            res.notify_url@ == notify_url@,
            res.description@ == description@,
            res.out_trade_no@ == out_trade_no@,
            res.amount == amount,
            res.time_expire is None,
            res.attach is None,
            res.goods_tag is None,
            res.support_fapiao is None,
            res.scene_info == scene_info,
            res.settle_info is None,
    {
        Self {
            appid: appid.to_owned(),
            mchid: mchid.to_owned(),
            notify_url: notify_url.to_owned(),
            description: description.to_owned(),
            out_trade_no: out_trade_no.to_owned(),
            amount,
            time_expire: None,
            attach: None,
            goods_tag: None,
            support_fapiao: None,
            scene_info,
            settle_info: None,
        }
    }
}

#[derive(Debug, Clone)]
pub struct TransferSceneReportInfo {
    /// Kind of the information, fixed by the transfer scene; at most 15
    /// characters.
    pub info_type: String,
    /// The information itself; at most 32 characters.
    pub info_content: String,
}

#[derive(Debug, Clone)]
pub struct TransferBillsParams {
    /// The app id bound to the merchant's number.
    pub appid: String,
    /// The merchant's own number of the transfer.
    pub out_bill_no: String,
    pub transfer_scene_id: String,
    /// The payee's identifier under the merchant's app id.
    pub openid: String,
    /// The payee's real name, encrypted; needed from 2000 yuan on.
    pub user_name: Option<String>,
    /// In fen.
    pub transfer_amount: i32,
    pub notify_url: String,
    /// Shown to the payee; at most 32 characters.
    pub transfer_remark: String,
    /// Reason shown to the payee in place of the scene's own.
    pub user_recv_perception: Option<String>,
    pub transfer_scene_report_infos: Vec<TransferSceneReportInfo>,
}

/// The sealed part of a notification.
#[derive(Debug, Clone)]
pub struct WechatPayNotifySource {
    pub algorithm: String,
    /// Ciphertext and tag, in base64.
    pub ciphertext: String,
    pub associated_data: Option<String>,
    pub original_type: String,
    pub nonce: String,
}

/// A notification as the gateway posts it.
#[derive(Debug, Clone)]
pub struct WechatPayNotify {
    pub id: String,
    pub create_time: String,
    pub event_type: String,
    pub resource_type: String,
    pub resource: WechatPayNotifySource,
    pub summary: String,
}

/// The payment a notification reports, once its resource is opened.
#[derive(Debug, Clone)]
pub struct WechatPayDecodeData {
    pub mchid: String,
    pub appid: String,
    pub out_trade_no: String,
    pub transaction_id: String,
    pub trade_type: String,
    pub trade_state: String,
    pub trade_state_desc: String,
    pub bank_type: String,
    pub attach: String,
    pub success_time: String,
    pub payer: PayerInfo,
    pub amount: AmountInfo,
}

} // verus!
