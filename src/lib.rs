//! Safe, verified model of the handles and the session lifecycle that sit
//! over the Leptonica image library and the Tesseract OCR engine.
pub mod leptonica;
pub mod tesseract;
