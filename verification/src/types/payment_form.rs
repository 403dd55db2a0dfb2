use vstd::prelude::*;

verus! {

use crate::types::payloads::{FormattedText, Invoice, OrderInfo, PaymentProvider, Photo, SavedCredentials};
use crate::utils::fresh_request_extra;

/// Contains information about an invoice payment form
#[derive(Debug, Clone, PartialEq)]
pub struct PaymentForm {
    pub extra: Option<String>,
    pub client_id: Option<i32>,
    /// The payment form identifier
    pub id: i64,
    /// Full information about the invoice
    pub invoice: Invoice,
    /// User identifier of the seller bot
    pub seller_bot_user_id: i64,
    /// User identifier of the payment provider bot
    pub payment_provider_user_id: i64,
    /// Information about the payment provider
    pub payment_provider: PaymentProvider,
    /// Saved server-side order information; may be null
    pub saved_order_info: Option<OrderInfo>,
    /// Information about saved card credentials; may be null
    pub saved_credentials: Option<SavedCredentials>,
    /// True, if the user can choose to save credentials
    pub can_save_credentials: bool,
    /// True, if the user will be able to save credentials protected by a password they set up
    pub need_password: bool,
    /// Product title
    pub product_title: String,
    /// Product description
    pub product_description: FormattedText,
    /// Product photo; may be null
    pub product_photo: Option<Photo>,
}

impl PaymentForm {
    pub fn builder() -> (r: RTDPaymentFormBuilder)
        ensures
            r.inner.extra is Some,
            r.inner.extra->0@.len() == 36,
            r.inner.client_id is None,
            r.inner.id == 0,
            r.inner.invoice == (Invoice {}),
            r.inner.seller_bot_user_id == 0,
            r.inner.payment_provider_user_id == 0,
            r.inner.payment_provider == (PaymentProvider {}),
            r.inner.saved_order_info is None,
            r.inner.saved_credentials is None,
            !r.inner.can_save_credentials,
            !r.inner.need_password,
            r.inner.product_title@ == Seq::<char>::empty(),
            r.inner.product_description == (FormattedText {}),
            r.inner.product_photo is None,
    {
        let inner = PaymentForm {
            extra: Some(fresh_request_extra()),
            client_id: None,
            id: 0,
            invoice: Invoice {},
            seller_bot_user_id: 0,
            payment_provider_user_id: 0,
            payment_provider: PaymentProvider {},
            saved_order_info: None,
            saved_credentials: None,
            can_save_credentials: false,
            need_password: false,
            product_title: String::new(),
            product_description: FormattedText {},
            product_photo: None,
        };
        RTDPaymentFormBuilder { inner }
    }

    pub fn id(&self) -> (r: i64)
        ensures
            r == self.id,
    {
        self.id
    }

    pub fn invoice(&self) -> (r: &Invoice)
        ensures
            *r == self.invoice,
    {
        &self.invoice
    }

    pub fn seller_bot_user_id(&self) -> (r: i64)
        ensures
            r == self.seller_bot_user_id,
    {
        self.seller_bot_user_id
    }

    pub fn payment_provider_user_id(&self) -> (r: i64)
        ensures
            r == self.payment_provider_user_id,
    {
        self.payment_provider_user_id
    }

    pub fn payment_provider(&self) -> (r: &PaymentProvider)
        ensures
            *r == self.payment_provider,
    {
        &self.payment_provider
    }

    pub fn saved_order_info(&self) -> (r: &Option<OrderInfo>)
        ensures
            *r == self.saved_order_info,
    {
        &self.saved_order_info
    }

    pub fn saved_credentials(&self) -> (r: &Option<SavedCredentials>)
        ensures
            *r == self.saved_credentials,
    {
        &self.saved_credentials
    }

    pub fn can_save_credentials(&self) -> (r: bool)
        ensures
            r == self.can_save_credentials,
    {
        self.can_save_credentials
    }

    pub fn need_password(&self) -> (r: bool)
        ensures
            r == self.need_password,
    {
        self.need_password
    }

    pub fn product_title(&self) -> (r: &String)
        ensures
            *r == self.product_title,
    {
        &self.product_title
    }

    pub fn product_description(&self) -> (r: &FormattedText)
        ensures
            *r == self.product_description,
    {
        &self.product_description
    }

    pub fn product_photo(&self) -> (r: &Option<Photo>)
        ensures
            *r == self.product_photo,
    {
        &self.product_photo
    }
}

pub struct RTDPaymentFormBuilder {
    pub inner: PaymentForm,
}

impl RTDPaymentFormBuilder {
    pub fn build(self) -> (r: PaymentForm)
        ensures
            r == self.inner,
    {
        self.inner
    }

    pub fn id(self, id: i64) -> (r: Self)
        ensures
            r.inner == (PaymentForm { id: id, ..self.inner }),
    {
        let mut inner = self.inner;
        inner.id = id;
        RTDPaymentFormBuilder { inner }
    }

    pub fn invoice(self, invoice: Invoice) -> (r: Self)
        ensures
            r.inner == (PaymentForm { invoice: invoice, ..self.inner }),
    {
        let mut inner = self.inner;
        inner.invoice = invoice;
        RTDPaymentFormBuilder { inner }
    }

    pub fn seller_bot_user_id(self, seller_bot_user_id: i64) -> (r: Self)
        ensures
            r.inner == (PaymentForm { seller_bot_user_id: seller_bot_user_id, ..self.inner }),
    {
        let mut inner = self.inner;
        inner.seller_bot_user_id = seller_bot_user_id;
        RTDPaymentFormBuilder { inner }
    }

    pub fn payment_provider_user_id(self, payment_provider_user_id: i64) -> (r: Self)
        ensures
            r.inner == (PaymentForm { payment_provider_user_id: payment_provider_user_id, ..self.inner }),
    {
        let mut inner = self.inner;
        inner.payment_provider_user_id = payment_provider_user_id;
        RTDPaymentFormBuilder { inner }
    }

    pub fn payment_provider(self, payment_provider: PaymentProvider) -> (r: Self)
        ensures
            r.inner == (PaymentForm { payment_provider: payment_provider, ..self.inner }),
    {
        let mut inner = self.inner;
        inner.payment_provider = payment_provider;
        RTDPaymentFormBuilder { inner }
    }

    pub fn saved_order_info(self, saved_order_info: OrderInfo) -> (r: Self)
        ensures
            r.inner == (PaymentForm { saved_order_info: Some(saved_order_info), ..self.inner }),
    {
        let mut inner = self.inner;
        inner.saved_order_info = Some(saved_order_info);
        RTDPaymentFormBuilder { inner }
    }

    pub fn saved_credentials(self, saved_credentials: SavedCredentials) -> (r: Self)
        ensures
            r.inner == (PaymentForm { saved_credentials: Some(saved_credentials), ..self.inner }),
    {
        let mut inner = self.inner;
        inner.saved_credentials = Some(saved_credentials);
        RTDPaymentFormBuilder { inner }
    }

    pub fn can_save_credentials(self, can_save_credentials: bool) -> (r: Self)
        ensures
            r.inner == (PaymentForm { can_save_credentials: can_save_credentials, ..self.inner }),
    {
        let mut inner = self.inner;
        inner.can_save_credentials = can_save_credentials;
        RTDPaymentFormBuilder { inner }
    }

    pub fn need_password(self, need_password: bool) -> (r: Self)
        ensures
            r.inner == (PaymentForm { need_password: need_password, ..self.inner }),
    {
        let mut inner = self.inner;
        inner.need_password = need_password;
        RTDPaymentFormBuilder { inner }
    }

    pub fn product_title(self, product_title: String) -> (r: Self)
        ensures
            r.inner == (PaymentForm { product_title: product_title, ..self.inner }),
    {
        let mut inner = self.inner;
        inner.product_title = product_title;
        RTDPaymentFormBuilder { inner }
    }

    pub fn product_description(self, product_description: FormattedText) -> (r: Self)
        ensures
            r.inner == (PaymentForm { product_description: product_description, ..self.inner }),
    {
        let mut inner = self.inner;
        inner.product_description = product_description;
        RTDPaymentFormBuilder { inner }
    }

    pub fn product_photo(self, product_photo: Photo) -> (r: Self)
        ensures
            r.inner == (PaymentForm { product_photo: Some(product_photo), ..self.inner }),
    {
        let mut inner = self.inner;
        inner.product_photo = Some(product_photo);
        RTDPaymentFormBuilder { inner }
    }
}

} // verus!
