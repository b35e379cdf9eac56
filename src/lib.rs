//! A receiver's subscription endpoints: `GET /subscribe/<product_type>` and
//! `GET /unsubscribe/<product_type>`, modelled as a pure adapter between an HTTP
//! request, the subscription service it delegates to, and the reply it sends.
pub mod controller;
pub mod model;
