//! The JSON bodies of the calls: which members each carries, under which
//! names and in which order, and which are left out when they are not set.

use crate::json::{
    array, member, number_member, object, opt_boolean_member, opt_json_member, opt_number_member,
    opt_text_member, text_member, ArrayWriter, ObjectWriter,
};
use crate::model::{
    AmountInfo, AppParams, GoodsDetail, H5Info, H5Params, H5SceneInfo, JsapiParams, MicroParams,
    NativeParams, OrderDetail, ParamsTrait, PayerInfo, SceneInfo, SettleInfo, StoreInfo,
    TransferBillsParams, TransferSceneReportInfo,
};
use vstd::prelude::*;

verus! {

impl AmountInfo {
    /// The JSON members of an amount, in the order they are
    /// written; `None` for one that is left out.
    pub open spec fn members(&self) -> Seq<Option<Seq<char>>> {
        seq![
            number_member("total"@, self.total),
        ]
    }

    /// The JSON text of an amount.
    pub open spec fn json(&self) -> Seq<char> {
        object(self.members())
    }

    pub fn to_json(&self) -> (res: String)
        ensures
            res@ == self.json(),
    {
        let mut writer = ObjectWriter::new();
        writer.number("total", self.total);
        assert(writer.members() =~= self.members());
        writer.finish()
    }
}

impl PayerInfo {
    /// The JSON members of a payer, in the order they are
    /// written; `None` for one that is left out.
    pub open spec fn members(&self) -> Seq<Option<Seq<char>>> {
        seq![
            text_member("openid"@, self.openid),
        ]
    }

    /// The JSON text of a payer.
    pub open spec fn json(&self) -> Seq<char> {
        object(self.members())
    }

    pub fn to_json(&self) -> (res: String)
        ensures
            res@ == self.json(),
    {
        let mut writer = ObjectWriter::new();
        writer.text("openid", &self.openid);
        assert(writer.members() =~= self.members());
        writer.finish()
    }
}

impl GoodsDetail {
    /// The JSON members of one item of an order, in the order they are
    /// written; `None` for one that is left out.
    pub open spec fn members(&self) -> Seq<Option<Seq<char>>> {
        seq![
            text_member("merchant_goods_id"@, self.merchant_goods_id),
            number_member("quantity"@, self.quantity),
            number_member("unit_price"@, self.unit_price),
            opt_text_member("wechatpay_goods_id"@, self.wechatpay_goods_id),
            opt_text_member("goods_name"@, self.goods_name),
        ]
    }

    /// The JSON text of one item of an order.
    pub open spec fn json(&self) -> Seq<char> {
        object(self.members())
    }

    pub fn to_json(&self) -> (res: String)
        ensures
            res@ == self.json(),
    {
        let mut writer = ObjectWriter::new();
        writer.text("merchant_goods_id", &self.merchant_goods_id);
        writer.number("quantity", self.quantity);
        writer.number("unit_price", self.unit_price);
        writer.opt_text("wechatpay_goods_id", &self.wechatpay_goods_id);
        writer.opt_text("goods_name", &self.goods_name);
        assert(writer.members() =~= self.members());
        writer.finish()
    }

    /// The JSON text of a list: an array with the JSON text of each entry,
    /// in the list's order.
    pub open spec fn list_json(list: Seq<GoodsDetail>) -> Seq<char> {
        array(Seq::new(list.len(), |i: int| list[i].json()))
    }

    pub fn list_to_json(list: &Vec<GoodsDetail>) -> (res: String)
        ensures
            res@ == Self::list_json(list@),
    {
        let mut items = ArrayWriter::new();
        let mut i: usize = 0;
        while i < list.len()
            invariant
                i <= list.len(),
                items.wf(),
                items.items() == Seq::new(i as nat, |j: int| list@[j].json()),
            decreases list.len() - i,
        {
            items.item(list[i].to_json().as_str());
            i += 1;
            assert(items.items() =~= Seq::new(i as nat, |j: int| list@[j].json()));
        }
        assert(items.items() =~= Seq::new(list@.len(), |j: int| list@[j].json()));
        items.finish()
    }
}

impl OrderDetail {
    /// The JSON members of the detail of an order, in the order they are
    /// written; `None` for one that is left out.
    pub open spec fn members(&self) -> Seq<Option<Seq<char>>> {
        seq![
            opt_number_member("cost_price"@, self.cost_price),
            opt_text_member("invoice_id"@, self.invoice_id),
            Some(member("goods_detail"@, GoodsDetail::list_json(self.goods_detail@))),
        ]
    }

    /// The JSON text of the detail of an order.
    pub open spec fn json(&self) -> Seq<char> {
        object(self.members())
    }

    pub fn to_json(&self) -> (res: String)
        ensures
            res@ == self.json(),
    {
        let mut writer = ObjectWriter::new();
        writer.opt_number("cost_price", self.cost_price);
        writer.opt_text("invoice_id", &self.invoice_id);
        writer.json("goods_detail", GoodsDetail::list_to_json(&self.goods_detail).as_str());
        assert(writer.members() =~= self.members());
        writer.finish()
    }
}

impl StoreInfo {
    /// The JSON members of a store, in the order they are
    /// written; `None` for one that is left out.
    pub open spec fn members(&self) -> Seq<Option<Seq<char>>> {
        seq![
            text_member("id"@, self.id),
            opt_text_member("name"@, self.name),
            opt_text_member("area_code"@, self.area_code),
            opt_text_member("address"@, self.address),
        ]
    }

    /// The JSON text of a store.
    pub open spec fn json(&self) -> Seq<char> {
        object(self.members())
    }

    pub fn to_json(&self) -> (res: String)
        ensures
            res@ == self.json(),
    {
        let mut writer = ObjectWriter::new();
        writer.text("id", &self.id);
        writer.opt_text("name", &self.name);
        writer.opt_text("area_code", &self.area_code);
        writer.opt_text("address", &self.address);
        assert(writer.members() =~= self.members());
        writer.finish()
    }
}

impl SettleInfo {
    /// The JSON members of the settling of a payment, in the order they are
    /// written; `None` for one that is left out.
    pub open spec fn members(&self) -> Seq<Option<Seq<char>>> {
        seq![
            opt_boolean_member("profit_sharing"@, self.profit_sharing),
        ]
    }

    /// The JSON text of the settling of a payment.
    pub open spec fn json(&self) -> Seq<char> {
        object(self.members())
    }

    pub fn to_json(&self) -> (res: String)
        ensures
            res@ == self.json(),
    {
        let mut writer = ObjectWriter::new();
        writer.opt_boolean("profit_sharing", self.profit_sharing);
        assert(writer.members() =~= self.members());
        writer.finish()
    }
}

impl H5Info {
    /// The JSON members of where an H5 payment starts, in the order they are
    /// written; `None` for one that is left out.
    pub open spec fn members(&self) -> Seq<Option<Seq<char>>> {
        seq![
            text_member("type"@, self.h5_type),
            opt_text_member("app_name"@, self.app_name),
            opt_text_member("app_url"@, self.app_url),
            opt_text_member("bundle_id"@, self.bundle_id),
            opt_text_member("package_name"@, self.package_name),
        ]
    }

    /// The JSON text of where an H5 payment starts.
    pub open spec fn json(&self) -> Seq<char> {
        object(self.members())
    }

    pub fn to_json(&self) -> (res: String)
        ensures
            res@ == self.json(),
    {
        let mut writer = ObjectWriter::new();
        writer.text("type", &self.h5_type);
        writer.opt_text("app_name", &self.app_name);
        writer.opt_text("app_url", &self.app_url);
        writer.opt_text("bundle_id", &self.bundle_id);
        writer.opt_text("package_name", &self.package_name);
        assert(writer.members() =~= self.members());
        writer.finish()
    }
}

impl H5SceneInfo {
    /// The JSON members of the scene of an H5 payment, in the order they are
    /// written; `None` for one that is left out.
    pub open spec fn members(&self) -> Seq<Option<Seq<char>>> {
        seq![
            text_member("payer_client_ip"@, self.payer_client_ip),
            Some(member("h5_info"@, self.h5_info.json())),
            opt_text_member("device_id"@, self.device_id),
            opt_json_member(
                "store_info"@,
                match self.store_info {
                    Some(value) => Some(value.json()),
                    None => None,
                },
            ),
        ]
    }

    /// The JSON text of the scene of an H5 payment.
    pub open spec fn json(&self) -> Seq<char> {
        object(self.members())
    }

    pub fn to_json(&self) -> (res: String)
        ensures
            res@ == self.json(),
    {
        let mut writer = ObjectWriter::new();
        writer.text("payer_client_ip", &self.payer_client_ip);
        writer.json("h5_info", self.h5_info.to_json().as_str());
        writer.opt_text("device_id", &self.device_id);
        match &self.store_info {
            Some(value) => writer.json("store_info", value.to_json().as_str()),
            None => writer.skip(),
        }
        assert(writer.members() =~= self.members());
        writer.finish()
    }
}

impl TransferSceneReportInfo {
    /// The JSON members of one report on a transfer, in the order they are
    /// written; `None` for one that is left out.
    pub open spec fn members(&self) -> Seq<Option<Seq<char>>> {
        seq![
            text_member("info_type"@, self.info_type),
            text_member("info_content"@, self.info_content),
        ]
    }

    /// The JSON text of one report on a transfer.
    pub open spec fn json(&self) -> Seq<char> {
        object(self.members())
    }

    pub fn to_json(&self) -> (res: String)
        ensures
            res@ == self.json(),
    {
        let mut writer = ObjectWriter::new();
        writer.text("info_type", &self.info_type);
        writer.text("info_content", &self.info_content);
        assert(writer.members() =~= self.members());
        writer.finish()
    }

    /// The JSON text of a list: an array with the JSON text of each entry,
    /// in the list's order.
    pub open spec fn list_json(list: Seq<TransferSceneReportInfo>) -> Seq<char> {
        array(Seq::new(list.len(), |i: int| list[i].json()))
    }

    pub fn list_to_json(list: &Vec<TransferSceneReportInfo>) -> (res: String)
        ensures
            res@ == Self::list_json(list@),
    {
        let mut items = ArrayWriter::new();
        let mut i: usize = 0;
        while i < list.len()
            invariant
                i <= list.len(),
                items.wf(),
                items.items() == Seq::new(i as nat, |j: int| list@[j].json()),
            decreases list.len() - i,
        {
            items.item(list[i].to_json().as_str());
            i += 1;
            assert(items.items() =~= Seq::new(i as nat, |j: int| list@[j].json()));
        }
        assert(items.items() =~= Seq::new(list@.len(), |j: int| list@[j].json()));
        items.finish()
    }
}

impl SceneInfo {
    /// The JSON members of the scene of a payment, in the order they are
    /// written; `None` for one that is left out.
    pub open spec fn members(&self) -> Seq<Option<Seq<char>>> {
        seq![
            text_member("payer_client_ip"@, self.payer_client_ip),
            opt_text_member("device_id"@, self.device_id),
            opt_json_member(
                "store_info"@,
                match self.store_info {
                    Some(value) => Some(value.json()),
                    None => None,
                },
            ),
        ]
    }
}

impl ParamsTrait for SceneInfo {
    open spec fn json(&self) -> Seq<char> {
        object(self.members())
    }

    fn to_json(&self) -> (res: String) {
        let mut writer = ObjectWriter::new();
        writer.text("payer_client_ip", &self.payer_client_ip);
        writer.opt_text("device_id", &self.device_id);
        match &self.store_info {
            Some(value) => writer.json("store_info", value.to_json().as_str()),
            None => writer.skip(),
        }
        assert(writer.members() =~= self.members());
        writer.finish()
    }
}

impl JsapiParams {
    /// The JSON members of a JSAPI order, in the order they are
    /// written; `None` for one that is left out.
    pub open spec fn members(&self) -> Seq<Option<Seq<char>>> {
        seq![
            text_member("appid"@, self.appid),
            text_member("mchid"@, self.mchid),
            text_member("description"@, self.description),
            text_member("out_trade_no"@, self.out_trade_no),
            Some(member("amount"@, self.amount.json())),
            Some(member("payer"@, self.payer.json())),
            opt_text_member("attach"@, self.attach),
            opt_json_member(
                "detail"@,
                match self.detail {
                    Some(value) => Some(value.json()),
                    None => None,
                },
            ),
            opt_text_member("time_expire"@, self.time_expire),
            opt_json_member(
                "scene_info"@,
                match self.scene_info {
                    Some(value) => Some(value.json()),
                    None => None,
                },
            ),
        ]
    }
}

impl ParamsTrait for JsapiParams {
    open spec fn json(&self) -> Seq<char> {
        object(self.members())
    }

    fn to_json(&self) -> (res: String) {
        let mut writer = ObjectWriter::new();
        writer.text("appid", &self.appid);
        writer.text("mchid", &self.mchid);
        writer.text("description", &self.description);
        writer.text("out_trade_no", &self.out_trade_no);
        writer.json("amount", self.amount.to_json().as_str());
        writer.json("payer", self.payer.to_json().as_str());
        writer.opt_text("attach", &self.attach);
        match &self.detail {
            Some(value) => writer.json("detail", value.to_json().as_str()),
            None => writer.skip(),
        }
        writer.opt_text("time_expire", &self.time_expire);
        match &self.scene_info {
            Some(value) => writer.json("scene_info", value.to_json().as_str()),
            None => writer.skip(),
        }
        assert(writer.members() =~= self.members());
        writer.finish()
    }
}

impl MicroParams {
    /// The JSON members of a mini-program order, in the order they are
    /// written; `None` for one that is left out.
    pub open spec fn members(&self) -> Seq<Option<Seq<char>>> {
        seq![
            text_member("appid"@, self.appid),
            text_member("mchid"@, self.mchid),
            text_member("description"@, self.description),
            text_member("out_trade_no"@, self.out_trade_no),
            Some(member("amount"@, self.amount.json())),
            Some(member("payer"@, self.payer.json())),
            opt_text_member("attach"@, self.attach),
            opt_json_member(
                "detail"@,
                match self.detail {
                    Some(value) => Some(value.json()),
                    None => None,
                },
            ),
            opt_text_member("time_expire"@, self.time_expire),
            opt_json_member(
                "scene_info"@,
                match self.scene_info {
                    Some(value) => Some(value.json()),
                    None => None,
                },
            ),
        ]
    }
}

impl ParamsTrait for MicroParams {
    open spec fn json(&self) -> Seq<char> {
        object(self.members())
    }

    fn to_json(&self) -> (res: String) {
        let mut writer = ObjectWriter::new();
        writer.text("appid", &self.appid);
        writer.text("mchid", &self.mchid);
        writer.text("description", &self.description);
        writer.text("out_trade_no", &self.out_trade_no);
        writer.json("amount", self.amount.to_json().as_str());
        writer.json("payer", self.payer.to_json().as_str());
        writer.opt_text("attach", &self.attach);
        match &self.detail {
            Some(value) => writer.json("detail", value.to_json().as_str()),
            None => writer.skip(),
        }
        writer.opt_text("time_expire", &self.time_expire);
        match &self.scene_info {
            Some(value) => writer.json("scene_info", value.to_json().as_str()),
            None => writer.skip(),
        }
        assert(writer.members() =~= self.members());
        writer.finish()
    }
}

impl NativeParams {
    /// The JSON members of a native order, in the order they are
    /// written; `None` for one that is left out.
    pub open spec fn members(&self) -> Seq<Option<Seq<char>>> {
        seq![
            text_member("appid"@, self.appid),
            text_member("mchid"@, self.mchid),
            text_member("description"@, self.description),
            text_member("notify_url"@, self.notify_url),
            text_member("out_trade_no"@, self.out_trade_no),
            Some(member("amount"@, self.amount.json())),
            opt_text_member("time_expire"@, self.time_expire),
            opt_text_member("attach"@, self.attach),
            opt_text_member("goods_tag"@, self.goods_tag),
            opt_boolean_member("support_fapiao"@, self.support_fapiao),
            opt_json_member(
                "scene_info"@,
                match self.scene_info {
                    Some(value) => Some(value.json()),
                    None => None,
                },
            ),
            opt_json_member(
                "settle_info"@,
                match self.settle_info {
                    Some(value) => Some(value.json()),
                    None => None,
                },
            ),
        ]
    }
}

impl ParamsTrait for NativeParams {
    open spec fn json(&self) -> Seq<char> {
        object(self.members())
    }

    fn to_json(&self) -> (res: String) {
        let mut writer = ObjectWriter::new();
        writer.text("appid", &self.appid);
        writer.text("mchid", &self.mchid);
        writer.text("description", &self.description);
        writer.text("notify_url", &self.notify_url);
        writer.text("out_trade_no", &self.out_trade_no);
        writer.json("amount", self.amount.to_json().as_str());
        writer.opt_text("time_expire", &self.time_expire);
        writer.opt_text("attach", &self.attach);
        writer.opt_text("goods_tag", &self.goods_tag);
        writer.opt_boolean("support_fapiao", self.support_fapiao);
        match &self.scene_info {
            Some(value) => writer.json("scene_info", value.to_json().as_str()),
            None => writer.skip(),
        }
        match &self.settle_info {
            Some(value) => writer.json("settle_info", value.to_json().as_str()),
            None => writer.skip(),
        }
        assert(writer.members() =~= self.members());
        writer.finish()
    }
}

impl AppParams {
    /// The JSON members of an app order, in the order they are
    /// written; `None` for one that is left out.
    pub open spec fn members(&self) -> Seq<Option<Seq<char>>> {
        seq![
            text_member("appid"@, self.appid),
            text_member("mchid"@, self.mchid),
            text_member("description"@, self.description),
            text_member("notify_url"@, self.notify_url),
            text_member("out_trade_no"@, self.out_trade_no),
            Some(member("amount"@, self.amount.json())),
            opt_text_member("time_expire"@, self.time_expire),
            opt_text_member("attach"@, self.attach),
            opt_text_member("goods_tag"@, self.goods_tag),
            opt_boolean_member("support_fapiao"@, self.support_fapiao),
            opt_json_member(
                "detail"@,
                match self.detail {
                    Some(value) => Some(value.json()),
                    None => None,
                },
            ),
            opt_json_member(
                "scene_info"@,
                match self.scene_info {
                    Some(value) => Some(value.json()),
                    None => None,
                },
            ),
            opt_json_member(
                "settle_info"@,
                match self.settle_info {
                    Some(value) => Some(value.json()),
                    None => None,
                },
            ),
        ]
    }
}

impl ParamsTrait for AppParams {
    open spec fn json(&self) -> Seq<char> {
        object(self.members())
    }

    fn to_json(&self) -> (res: String) {
        let mut writer = ObjectWriter::new();
        writer.text("appid", &self.appid);
        writer.text("mchid", &self.mchid);
        writer.text("description", &self.description);
        writer.text("notify_url", &self.notify_url);
        writer.text("out_trade_no", &self.out_trade_no);
        writer.json("amount", self.amount.to_json().as_str());
        writer.opt_text("time_expire", &self.time_expire);
        writer.opt_text("attach", &self.attach);
        writer.opt_text("goods_tag", &self.goods_tag);
        writer.opt_boolean("support_fapiao", self.support_fapiao);
        match &self.detail {
            Some(value) => writer.json("detail", value.to_json().as_str()),
            None => writer.skip(),
        }
        match &self.scene_info {
            Some(value) => writer.json("scene_info", value.to_json().as_str()),
            None => writer.skip(),
        }
        match &self.settle_info {
            Some(value) => writer.json("settle_info", value.to_json().as_str()),
            None => writer.skip(),
        }
        assert(writer.members() =~= self.members());
        writer.finish()
    }
}

impl H5Params {
    /// The JSON members of an H5 order, in the order they are
    /// written; `None` for one that is left out.
    pub open spec fn members(&self) -> Seq<Option<Seq<char>>> {
        seq![
            text_member("appid"@, self.appid),
            text_member("mchid"@, self.mchid),
            text_member("description"@, self.description),
            text_member("notify_url"@, self.notify_url),
            text_member("out_trade_no"@, self.out_trade_no),
            Some(member("amount"@, self.amount.json())),
            opt_text_member("time_expire"@, self.time_expire),
            opt_text_member("attach"@, self.attach),
            opt_text_member("goods_tag"@, self.goods_tag),
            opt_boolean_member("support_fapiao"@, self.support_fapiao),
            Some(member("scene_info"@, self.scene_info.json())),
            opt_json_member(
                "settle_info"@,
                match self.settle_info {
                    Some(value) => Some(value.json()),
                    None => None,
                },
            ),
        ]
    }
}

impl ParamsTrait for H5Params {
    open spec fn json(&self) -> Seq<char> {
        object(self.members())
    }

    fn to_json(&self) -> (res: String) {
        let mut writer = ObjectWriter::new();
        writer.text("appid", &self.appid);
        writer.text("mchid", &self.mchid);
        writer.text("description", &self.description);
        writer.text("notify_url", &self.notify_url);
        writer.text("out_trade_no", &self.out_trade_no);
        writer.json("amount", self.amount.to_json().as_str());
        writer.opt_text("time_expire", &self.time_expire);
        writer.opt_text("attach", &self.attach);
        writer.opt_text("goods_tag", &self.goods_tag);
        writer.opt_boolean("support_fapiao", self.support_fapiao);
        writer.json("scene_info", self.scene_info.to_json().as_str());
        match &self.settle_info {
            Some(value) => writer.json("settle_info", value.to_json().as_str()),
            None => writer.skip(),
        }
        assert(writer.members() =~= self.members());
        writer.finish()
    }
}

impl TransferBillsParams {
    /// The JSON members of a transfer, in the order they are
    /// written; `None` for one that is left out.
    pub open spec fn members(&self) -> Seq<Option<Seq<char>>> {
        seq![
            text_member("appid"@, self.appid),
            text_member("out_bill_no"@, self.out_bill_no),
            text_member("transfer_scene_id"@, self.transfer_scene_id),
            text_member("openid"@, self.openid),
            opt_text_member("user_name"@, self.user_name),
            number_member("transfer_amount"@, self.transfer_amount),
            text_member("notify_url"@, self.notify_url),
            text_member("transfer_remark"@, self.transfer_remark),
            opt_text_member("user_recv_perception"@, self.user_recv_perception),
            Some(
                member(
                    "transfer_scene_report_infos"@,
                    TransferSceneReportInfo::list_json(self.transfer_scene_report_infos@),
                ),
            ),
        ]
    }
}

impl ParamsTrait for TransferBillsParams {
    open spec fn json(&self) -> Seq<char> {
        object(self.members())
    }

    fn to_json(&self) -> (res: String) {
        let mut writer = ObjectWriter::new();
        writer.text("appid", &self.appid);
        writer.text("out_bill_no", &self.out_bill_no);
        writer.text("transfer_scene_id", &self.transfer_scene_id);
        writer.text("openid", &self.openid);
        writer.opt_text("user_name", &self.user_name);
        writer.number("transfer_amount", self.transfer_amount);
        writer.text("notify_url", &self.notify_url);
        writer.text("transfer_remark", &self.transfer_remark);
        writer.opt_text("user_recv_perception", &self.user_recv_perception);
        let reports = TransferSceneReportInfo::list_to_json(&self.transfer_scene_report_infos);
        writer.json("transfer_scene_report_infos", reports.as_str());
        assert(writer.members() =~= self.members());
        writer.finish()
    }
}

} // verus!
